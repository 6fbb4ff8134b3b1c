use libghostty_vt::error::Error;
use libghostty_vt::focus::{focus_encode, Event};
use libghostty_vt::paste::{encode, is_safe, EncodeReply};

#[test]
fn plain_text_is_safe() {
    assert!(is_safe("hello world"));
    assert!(is_safe(""));
    assert!(is_safe("tab\tand\rreturn"));
    assert!(is_safe("\x1b[200~"));
    assert!(is_safe("\x1b[201"));
    assert!(is_safe("äöü €"));
}

#[test]
fn newlines_are_unsafe() {
    assert!(!is_safe("rm -rf /\n"));
    assert!(!is_safe("\n"));
    assert!(!is_safe("a\nb"));
}

#[test]
fn the_end_of_a_bracketed_paste_is_unsafe() {
    assert!(!is_safe("\x1b[201~"));
    assert!(!is_safe("abc\x1b[201~def"));
    assert!(!is_safe("\x1b\x1b[201~"));
}

#[test]
fn the_seam_can_make_safe_data_unsafe() {
    let (front, back) = ("x\x1b[20", "1~y");
    assert!(is_safe(front) && is_safe(back));
    assert!(!is_safe(&format!("{front}{back}")));
}

#[test]
fn an_encoded_paste_is_copied_out() {
    let mut data = *b"a\nb";
    let mut buf = [0u8; 8];
    let res = encode(&mut data, false, &mut buf, |input, bracketed, room| {
        assert_eq!((input, bracketed, room), (b"a\nb".as_slice(), false, 8));
        EncodeReply { code: 0, len: 3, data: b"a\rb".to_vec(), out: b"a\rb".to_vec() }
    });
    assert_eq!(res, Ok(3));
    assert_eq!(&data, b"a\rb");
    assert_eq!(&buf, b"a\rb\0\0\0\0\0");
}

#[test]
fn a_paste_that_does_not_fit_reports_its_size() {
    let mut data = *b"abc";
    let mut buf = [7u8; 2];
    let res = encode(&mut data, true, &mut buf, |_, bracketed, _| {
        assert!(bracketed);
        EncodeReply { code: -3, len: 15, data: b"abc".to_vec(), out: Vec::new() }
    });
    assert_eq!(res, Err(Error::OutOfSpace { required: 15 }));
    assert_eq!(buf, [7, 7]);
}

#[test]
fn focus_reports_are_three_bytes() {
    let mut buf = [0u8; 8];
    assert_eq!(Event::Gained.encode(&mut buf), Ok(3));
    assert_eq!(&buf, b"\x1b[I\0\0\0\0\0");
    assert_eq!(Event::Lost.encode(&mut buf), Ok(3));
    assert_eq!(&buf[..3], b"\x1b[O");
    assert_eq!(Event::Gained.code(), 0);
    assert_eq!(Event::Lost.code(), 1);
}

#[test]
fn focus_reports_need_their_space() {
    let mut buf = [9u8; 2];
    assert_eq!(
        Event::Gained.encode(&mut buf),
        Err(Error::OutOfSpace { required: 3 })
    );
    assert_eq!(buf, [9, 9]);
    let mut exact = [0u8; 3];
    assert_eq!(Event::Lost.encode(&mut exact), Ok(3));
}

#[test]
fn focus_events_are_known_by_number() {
    let mut buf = [0u8; 3];
    assert_eq!(focus_encode(0, &mut buf), Ok(3));
    assert_eq!(&buf, b"\x1b[I");
    assert_eq!(focus_encode(1, &mut buf), Ok(3));
    assert_eq!(&buf, b"\x1b[O");
    assert_eq!(
        focus_encode(1, &mut [0u8; 0]),
        Err(Error::OutOfSpace { required: 3 })
    );
}
