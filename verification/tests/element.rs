use hctl::{Call, Elem, ElemId, ElemInfo, ElemIter, ElemType, ElemValue, Error, ErrorKind, HCtl};

fn session() -> HCtl {
    let mut session = HCtl::open(0, 0x1000).unwrap();
    session.load(0).unwrap();
    session
}

fn first_elem<'a>(elems: &mut ElemIter<'a>, addr: usize) -> Elem<'a> {
    elems.next(addr).unwrap()
}

fn master_volume() -> ElemId {
    ElemId {
        numid: 3,
        interface: 2,
        device: 0,
        subdevice: 0,
        name: String::from("Master Playback Volume"),
        index: 0,
    }
}

/// Stands in for a device that holds one element's value: answers a write as
/// the native layer does, 1 where the value changed and 0 where it did not.
fn device_write(held: &mut Vec<i64>, value: &ElemValue) -> i32 {
    let mut changed = 0;
    for i in 0..held.len() {
        let new = value.get(i).unwrap();
        if held[i] != new {
            held[i] = new;
            changed = 1;
        }
    }
    changed
}

/// Stands in for the native read: copies what the device holds into `value`.
fn device_read(held: &[i64], value: &mut ElemValue) -> i32 {
    for (i, v) in held.iter().enumerate() {
        assert!(value.set(i, *v));
    }
    0
}

#[test]
fn get_id_hands_on_the_identity() {
    let session = session();
    let mut elems = session.elem_iter();
    let elem = first_elem(&mut elems, 0x20);
    assert_eq!(elem.get_id(0, master_volume()), Ok(master_volume()));
}

#[test]
fn get_id_fails_where_no_identity_could_be_held() {
    let session = session();
    let mut elems = session.elem_iter();
    let elem = first_elem(&mut elems, 0x20);
    assert_eq!(
        elem.get_id(-12, master_volume()),
        Err(Error { kind: ErrorKind::Query, call: Call::ElemIdMalloc, code: -12 })
    );
}

#[test]
fn info_hands_on_type_and_count() {
    let session = session();
    let mut elems = session.elem_iter();
    let elem = first_elem(&mut elems, 0x20);
    let info = ElemInfo { value_type: ElemType::Integer, count: 2 };
    assert_eq!(elem.info(0, info), Ok(info));
    assert_eq!(elem.info(5, info), Ok(info));
}

#[test]
fn info_twice_gives_the_same() {
    let session = session();
    let mut elems = session.elem_iter();
    let elem = first_elem(&mut elems, 0x20);
    let reported = ElemInfo { value_type: ElemType::Boolean, count: 1 };
    let first = elem.info(0, reported).unwrap();
    let second = elem.info(0, reported).unwrap();
    assert_eq!(first.value_type, second.value_type);
    assert_eq!(first.count, second.count);
    assert_eq!(first.value_type, ElemType::Boolean);
    assert_eq!(first.count, 1);
}

#[test]
fn info_failure_is_a_query_failure() {
    let session = session();
    let mut elems = session.elem_iter();
    let elem = first_elem(&mut elems, 0x20);
    let info = ElemInfo { value_type: ElemType::Integer, count: 2 };
    assert_eq!(
        elem.info(-2, info),
        Err(Error { kind: ErrorKind::Query, call: Call::ElemInfo, code: -2 })
    );
}

#[test]
fn begin_read_shapes_the_buffer_after_the_metadata() {
    let session = session();
    let mut elems = session.elem_iter();
    let elem = first_elem(&mut elems, 0x20);
    let info = ElemInfo { value_type: ElemType::Integer64, count: 3 };
    let buffer = elem.begin_read(0, info).unwrap();
    assert_eq!(buffer.value_type(), ElemType::Integer64);
    assert_eq!(buffer.count(), 3);
    assert_eq!(buffer.get(0), Some(0));
    assert_eq!(buffer.get(1), Some(0));
    assert_eq!(buffer.get(2), Some(0));
    assert_eq!(buffer.get(3), None);
    assert_eq!(buffer, ElemValue::new(ElemType::Integer64, 3));
}

#[test]
fn begin_read_for_no_values_gives_an_empty_buffer() {
    let session = session();
    let mut elems = session.elem_iter();
    let elem = first_elem(&mut elems, 0x20);
    let info = ElemInfo { value_type: ElemType::Bytes, count: 0 };
    let buffer = elem.begin_read(0, info).unwrap();
    assert_eq!(buffer.count(), 0);
    assert_eq!(buffer.get(0), None);
}

#[test]
fn a_failed_metadata_query_fails_the_read() {
    let session = session();
    let mut elems = session.elem_iter();
    let elem = first_elem(&mut elems, 0x20);
    let info = ElemInfo { value_type: ElemType::Integer, count: 2 };
    assert_eq!(
        elem.begin_read(-19, info),
        Err(Error { kind: ErrorKind::Read, call: Call::ElemInfo, code: -19 })
    );
}

#[test]
fn read_hands_on_the_filled_buffer() {
    let session = session();
    let mut elems = session.elem_iter();
    let elem = first_elem(&mut elems, 0x20);
    let info = ElemInfo { value_type: ElemType::Integer, count: 2 };
    let mut buffer = elem.begin_read(0, info).unwrap();
    let status = device_read(&[40, -7], &mut buffer);
    let value = elem.read(status, buffer).unwrap();
    assert_eq!(value.value_type(), ElemType::Integer);
    assert_eq!(value.count(), 2);
    assert_eq!(value.get(0), Some(40));
    assert_eq!(value.get(1), Some(-7));
}

#[test]
fn a_failed_read_hands_out_no_data() {
    let session = session();
    let mut elems = session.elem_iter();
    let elem = first_elem(&mut elems, 0x20);
    let buffer = ElemValue::new(ElemType::Integer, 2);
    assert_eq!(
        elem.read(-5, buffer),
        Err(Error { kind: ErrorKind::Read, call: Call::ElemRead, code: -5 })
    );
}

#[test]
fn write_tells_changed_from_unchanged() {
    let session = session();
    let mut elems = session.elem_iter();
    let elem = first_elem(&mut elems, 0x20);
    assert_eq!(elem.write(0), Ok(false));
    assert_eq!(elem.write(1), Ok(true));
    assert_eq!(elem.write(2), Ok(true));
    assert_eq!(elem.write(i32::MAX), Ok(true));
}

#[test]
fn write_failure_is_a_write_failure() {
    let session = session();
    let mut elems = session.elem_iter();
    let elem = first_elem(&mut elems, 0x20);
    assert_eq!(
        elem.write(-1),
        Err(Error { kind: ErrorKind::Write, call: Call::ElemWrite, code: -1 })
    );
    assert_eq!(
        elem.write(-22),
        Err(Error { kind: ErrorKind::Write, call: Call::ElemWrite, code: -22 })
    );
}

#[test]
fn writing_back_what_was_read_changes_nothing() {
    let session = session();
    let mut elems = session.elem_iter();
    let elem = first_elem(&mut elems, 0x20);
    let mut held = vec![12, 12];
    let info = elem.info(0, ElemInfo { value_type: ElemType::Integer, count: 2 }).unwrap();
    let mut buffer = elem.begin_read(0, info).unwrap();
    let status = device_read(&held, &mut buffer);
    let mut value = elem.read(status, buffer).unwrap();

    let unchanged = device_write(&mut held, &value);
    assert_eq!(elem.write(unchanged), Ok(false));

    assert!(value.set(1, 30));
    let changed = device_write(&mut held, &value);
    assert_eq!(elem.write(changed), Ok(true));
    assert_eq!(held, vec![12, 30]);

    let again = device_write(&mut held, &value);
    assert_eq!(elem.write(again), Ok(false));
}

#[test]
fn a_simulated_card_is_walked_and_read() {
    // One card with three elements, each known by its address.
    let dir: [(usize, &str, ElemType, Vec<i64>); 3] = [
        (0x10, "Master Playback Volume", ElemType::Integer, vec![60, 60]),
        (0x20, "Master Playback Switch", ElemType::Boolean, vec![1]),
        (0x30, "Headphone Jack", ElemType::Boolean, vec![0]),
    ];
    let mut session = HCtl::open(0, 0x1000).unwrap();
    session.load(0).unwrap();
    println!("Card {}:", "simulated");
    let mut seen = 0;
    let mut elems = session.elem_iter();
    let mut at = 0;
    loop {
        let fetched = if at < dir.len() { dir[at].0 } else { 0 };
        let elem = match elems.next(fetched) {
            Some(elem) => elem,
            None => break,
        };
        let (addr, name, value_type, held) = &dir[at];
        assert_eq!(elem.addr(), *addr);
        let id = ElemId {
            numid: at as u32 + 1,
            interface: 2,
            device: 0,
            subdevice: 0,
            name: String::from(*name),
            index: 0,
        };
        let id = elem.get_id(0, id).unwrap();
        let info = ElemInfo { value_type: *value_type, count: held.len() as u32 };
        let mut buffer = elem.begin_read(0, info).unwrap();
        let status = device_read(held, &mut buffer);
        let value = elem.read(status, buffer).unwrap();
        assert_eq!(value.count(), held.len());
        println!("  {:?} - {:?}", id, value);
        seen += 1;
        at += 1;
    }
    assert_eq!(seen, 3);
}
