use zundamon_vrc::osc::{chatbox_packet, osc_target};

#[test]
fn chatbox_packet_bytes() {
    let mut expected = b"/chatbox/input\0\0".to_vec();
    expected.extend(b",sTF\0\0\0\0");
    expected.extend(b"hi\0\0");
    assert_eq!(chatbox_packet("hi"), expected);
}

#[test]
fn chatbox_packet_pads_text_to_four_bytes() {
    let packet = chatbox_packet("abcd");
    assert_eq!(packet.len(), 16 + 8 + 8);
    assert_eq!(&packet[24..], b"abcd\0\0\0\0");
    let japanese = chatbox_packet("なのだ");
    assert_eq!(japanese.len(), 16 + 8 + 12);
    assert_eq!(&japanese[24..33], "なのだ".as_bytes());
}

#[test]
fn osc_destination() {
    assert_eq!(osc_target("127.0.0.1", 9000), "127.0.0.1:9000");
    assert_eq!(osc_target("localhost", 0), "localhost:0");
}
