use music_manager::InputBuffer;

#[test]
fn typing_and_erasing() {
    let mut b = InputBuffer::new();
    b.push_char('a');
    b.push_char('é');
    assert_eq!(b.get_buffer(), "aé");
    assert_eq!(b.get_index(), 2);
    b.pop();
    assert_eq!(b.get_buffer(), "a");
    assert_eq!(b.get_index(), 1);
    b.pop();
    b.pop();
    assert_eq!(b.get_buffer(), "");
    assert_eq!(b.get_index(), 0);
}

#[test]
fn drain_hands_out_text_and_empties() {
    let mut b = InputBuffer::new();
    for c in "hits".chars() {
        b.push_char(c);
    }
    assert_eq!(b.get_buffer_drain(), "hits");
    assert_eq!(b.get_buffer(), "");
    assert_eq!(b.get_index(), 4);
    b.push_char('x');
    b.clear();
    assert_eq!(b.get_buffer(), "");
}
