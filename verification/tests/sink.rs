use spa_pod::sink::Sink;

#[test]
fn new_sink_is_empty_at_position_zero() {
    let sink = Sink::new();
    assert_eq!(sink.position(), 0);
    assert_eq!(sink.len(), 0);
    assert_eq!(sink.into_inner(), Vec::<u8>::new());
}

#[test]
fn writes_append_and_advance_the_position() {
    let mut sink = Sink::new();
    assert_eq!(sink.write(&[1, 2, 3]), 3);
    assert_eq!(sink.position(), 3);
    assert_eq!(sink.write(&[4]), 1);
    assert_eq!(sink.position(), 4);
    assert_eq!(sink.len(), 4);
    assert_eq!(sink.into_inner(), vec![1, 2, 3, 4]);
}

#[test]
fn a_seek_back_lets_a_write_overwrite_in_place() {
    // This is how a struct's reserved header is patched afterwards.
    let mut sink = Sink::new();
    sink.write(&[1, 2, 3, 4, 5]);
    sink.seek(1);
    assert_eq!(sink.write(&[8, 9]), 2);
    assert_eq!(sink.position(), 3);
    sink.seek_end();
    assert_eq!(sink.position(), 5);
    assert_eq!(sink.into_inner(), vec![1, 8, 9, 4, 5]);
}

#[test]
fn a_write_across_the_end_overwrites_then_extends() {
    let mut sink = Sink::new();
    sink.write(&[1, 2, 3]);
    sink.seek(2);
    assert_eq!(sink.write(&[7, 8, 9]), 3);
    assert_eq!(sink.position(), 5);
    assert_eq!(sink.len(), 5);
    assert_eq!(sink.into_inner(), vec![1, 2, 7, 8, 9]);
}
