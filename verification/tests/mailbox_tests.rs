use bcm2711_hal::clocks::ClockId;
use bcm2711_hal::mailbox::{
    is_response_for, mailbox_write_word, response_result, AllocFramebufferRepr, Channel, Error,
    GetClockRateRepr, MailboxBuffer, Msg, MsgEmitter, PixelOrder, ReqMsg, ReqRespCode, RespMsg,
    Tag, TagId, BUFFER_LEN, RESPONSE_ERROR_CODE, RESPONSE_SUCCESS_CODE,
};
use bcm2711_hal::time::Hertz;
use std::convert::TryFrom;

fn zeroed() -> Vec<u32> {
    MailboxBuffer::new().to_vec()
}

#[test]
fn tag_id_words_round_trip() {
    assert_eq!(u32::from(TagId::GetClockRate), 0x0003_0002);
    assert_eq!(u32::from(TagId::SetVirtOffset), 0x0004_8009);
    assert_eq!(TagId::try_from(0x0004_8003), Ok(TagId::SetPhySize));
    assert_eq!(TagId::try_from(0x0000_0000), Ok(TagId::Last));
    assert_eq!(TagId::try_from(0x1234), Err(Error::UnkownTagId(0x1234)));
}

#[test]
fn clock_id_words() {
    assert_eq!(u32::from(ClockId::Core), 4);
    assert_eq!(ClockId::from(3), ClockId::Arm);
    assert_eq!(ClockId::from(9), ClockId::Unkown(9));
    // A non-canonical id comes back as the clock it names
    assert_eq!(ClockId::from(u32::from(ClockId::Unkown(2))), ClockId::Uart);
}

#[test]
fn channel_and_write_word() {
    assert_eq!(u32::from(Channel::Prop), 8);
    assert_eq!(mailbox_write_word(0x1000_0010, Channel::Prop), 0x1000_0018);
    assert_eq!(mailbox_write_word(0x1000_0013, Channel::Prop), 0x1000_0018);
    assert!(is_response_for(0x1000_0018, Channel::Prop, 0x1000_0010));
    assert!(!is_response_for(0x1000_0019, Channel::Prop, 0x1000_0010));
    assert!(!is_response_for(0x2000_0018, Channel::Prop, 0x1000_0010));
    // A misaligned buffer never recognises its own word
    let w = mailbox_write_word(0x1000_0013, Channel::Prop);
    assert!(!is_response_for(w, Channel::Prop, 0x1000_0013));
}

#[test]
fn msg_header_fields() {
    let mut msg = Msg::new_unchecked(zeroed());
    msg.set_buffer_size(32);
    msg.set_reqresp_code(ReqRespCode::ResponseSuccess);
    assert_eq!(msg.buffer_size(), 32);
    assert_eq!(msg.reqresp_code(), ReqRespCode::ResponseSuccess);
    msg.set_reqresp_code(ReqRespCode::Unknown(7));
    assert_eq!(msg.reqresp_code(), ReqRespCode::Unknown(7));
    assert_eq!(Msg::header_size(), 8);
    assert_eq!(msg.payload().len(), BUFFER_LEN - 2);
    assert_eq!(msg.check_len(), Ok(()));
}

#[test]
fn msg_check_len_errors() {
    assert!(matches!(Msg::new_checked(vec![0; 10]), Err(Error::Truncated)));
    let mut words = zeroed();
    words[0] = 36 * 4 + 1;
    assert!(matches!(Msg::new_checked(words), Err(Error::Malformed)));
    let mut words = zeroed();
    words[0] = 36 * 4;
    assert!(Msg::new_checked(words).is_ok());
}

#[test]
fn fill_last_tag_alignment() {
    let mut words = zeroed();
    words[0] = 30;
    let mut msg = Msg::new_unchecked(words);
    assert_eq!(msg.fill_last_tag(), Err(Error::MessageWordAlign));
    let mut words = zeroed();
    words[0] = 16;
    words[3] = 0xAAAA;
    let mut msg = Msg::new_unchecked(words);
    assert_eq!(msg.fill_last_tag(), Ok(()));
    assert_eq!(msg.into_inner()[3], 0);
}

#[test]
fn tag_fields() {
    let mut tag = Tag::new_unchecked(vec![0; 5]);
    tag.set_tag_id(TagId::GetTemperature);
    tag.set_request_size(4);
    tag.set_response_size(8);
    assert_eq!(tag.tag_id(), Ok(TagId::GetTemperature));
    assert_eq!(tag.request_size(), 4);
    assert_eq!(tag.response_size(), 8);
    assert_eq!(tag.into_inner(), vec![0x0003_0006, 4, 0x8000_0008, 0, 0]);
    assert!(matches!(Tag::new_checked(vec![0, 0]), Err(Error::Truncated)));
    assert_eq!(Tag::header_size(), 12);
}

#[test]
fn clock_rate_request_words() {
    let mut words = zeroed();
    words[6] = 0xDEAD;
    let mut msg = Msg::new_unchecked(words);
    let repr = GetClockRateRepr::new(ClockId::Uart);
    assert_eq!(repr.emit_request(&mut msg), Ok(()));
    let words = msg.into_inner();
    assert_eq!(
        &words[..8],
        &[32, 0, 0x0003_0002, 8, 0x8000_0008, 2, 0xDEAD, 0]
    );
    assert_eq!(repr.msg_size(), 32);
}

#[test]
fn clock_rate_request_round_trip() {
    let mut msg = Msg::new_unchecked(zeroed());
    GetClockRateRepr::new(ClockId::Arm)
        .emit_request(&mut msg)
        .unwrap();
    // The firmware answers with the success code and the rate
    let mut words = msg.into_inner();
    words[1] = RESPONSE_SUCCESS_CODE;
    words[6] = 600_000_000;
    let msg = Msg::new_unchecked(words);
    let repr = GetClockRateRepr::parse_response(&msg).unwrap();
    assert_eq!(repr.clock_id(), ClockId::Arm);
    assert_eq!(repr.rate(), Hertz(600_000_000));
    match RespMsg::try_from(&msg) {
        Ok(RespMsg::GetClockRate(r)) => assert_eq!(r, repr),
        _ => panic!("expected a clock rate response"),
    }
    assert!(matches!(response_result(&msg), Ok(RespMsg::GetClockRate(_))));
}

#[test]
fn clock_rate_parse_errors() {
    let mut msg = Msg::new_unchecked(zeroed());
    GetClockRateRepr::new(ClockId::Core).emit_request(&mut msg).unwrap();
    // Still a request: not a successful response
    assert_eq!(GetClockRateRepr::parse_response(&msg), Err(Error::Malformed));
    let mut words = msg.into_inner();
    words[1] = RESPONSE_SUCCESS_CODE;
    words[4] = 0x8000_0004;
    let msg = Msg::new_unchecked(words.clone());
    assert_eq!(GetClockRateRepr::parse_response(&msg), Err(Error::Malformed));
    words[4] = 0x8000_0008;
    words[2] = 0x7777;
    let msg = Msg::new_unchecked(words.clone());
    assert_eq!(GetClockRateRepr::parse_response(&msg), Err(Error::UnkownTagId(0x7777)));
    words[2] = u32::from(TagId::GetPitch);
    let msg = Msg::new_unchecked(words.clone());
    assert_eq!(GetClockRateRepr::parse_response(&msg), Err(Error::Malformed));
    words[0] = 28;
    let msg = Msg::new_unchecked(words);
    assert_eq!(GetClockRateRepr::parse_response(&msg), Err(Error::Malformed));
}

#[test]
fn clock_rate_emit_into_short_buffers() {
    // Six words: the request is written, the request value check fails
    let mut msg = Msg::new_unchecked(vec![9; 6]);
    let r = GetClockRateRepr::new(ClockId::Core).emit_request(&mut msg);
    assert_eq!(r, Err(Error::Truncated));
    assert_eq!(msg.into_inner(), vec![32, 0, 0x0003_0002, 8, 0x8000_0008, 4]);
    // Eight words: the end tag is written, the message length check fails
    let mut msg = Msg::new_unchecked(vec![9; 8]);
    let r = GetClockRateRepr::new(ClockId::Core).emit_request(&mut msg);
    assert_eq!(r, Err(Error::Truncated));
    assert_eq!(msg.into_inner(), vec![32, 0, 0x0003_0002, 8, 0x8000_0008, 4, 9, 0]);
}

#[test]
fn framebuffer_request_round_trip() {
    let mut msg = Msg::new_unchecked(zeroed());
    let mut repr = AllocFramebufferRepr::new();
    repr.phy_width = 1920;
    repr.phy_height = 1080;
    repr.pixel_order = PixelOrder::BGR;
    assert_eq!(repr.emit_request(&mut msg), Ok(()));
    let mut words = msg.into_inner();
    assert_eq!(words[0], 140);
    assert_eq!(words[2], 0x0004_8003);
    assert_eq!(words[5], 1920);
    assert_eq!(words[6], 1080);
    assert_eq!(words[7], 0x0004_8004);
    assert_eq!(words[24], 0);
    assert_eq!(words[28], 4096);
    assert_eq!(words[30], 0x0004_0008);
    assert_eq!(words[34], 0);
    // The firmware answers: success, a buffer address and size, a pitch
    words[1] = RESPONSE_SUCCESS_CODE;
    words[28] = 0xC000_1000;
    words[29] = 0x0080_0000;
    words[33] = 7680;
    let msg = Msg::new_unchecked(words);
    let parsed = AllocFramebufferRepr::parse_response(&msg).unwrap();
    assert_eq!(parsed.phy_width, 1920);
    assert_eq!(parsed.phy_height, 1080);
    assert_eq!(parsed.virt_width, 800);
    assert_eq!(parsed.depth, 32);
    assert_eq!(parsed.pixel_order, PixelOrder::BGR);
    assert_eq!(parsed.alloc_buffer_address(), 0x0000_1000);
    assert_eq!(parsed.alloc_buffer_bus_address(), 0xC000_1000);
    assert_eq!(parsed.alloc_buffer_size(), 0x0080_0000);
    assert_eq!(parsed.pitch(), 7680);
    assert!(matches!(RespMsg::try_from(&msg), Ok(RespMsg::AllocFramebuffer(_))));
}

#[test]
fn framebuffer_parse_errors() {
    let mut msg = Msg::new_unchecked(zeroed());
    AllocFramebufferRepr::new().emit_request(&mut msg).unwrap();
    let mut words = msg.into_inner();
    words[1] = RESPONSE_SUCCESS_CODE;
    words[21] = u32::from(TagId::SetDepth);
    let msg = Msg::new_unchecked(words.clone());
    assert_eq!(AllocFramebufferRepr::parse_response(&msg), Err(Error::Malformed));
    words[21] = 0x55;
    let msg = Msg::new_unchecked(words);
    assert_eq!(AllocFramebufferRepr::parse_response(&msg), Err(Error::UnkownTagId(0x55)));
}

#[test]
fn framebuffer_emit_needs_room() {
    let mut msg = Msg::new_unchecked(vec![0; 35]);
    assert_eq!(AllocFramebufferRepr::new().emit_request(&mut msg), Err(Error::Truncated));
}

#[test]
fn pixel_order_words() {
    assert_eq!(u32::from(PixelOrder::RGB), 1);
    assert_eq!(PixelOrder::from(0), PixelOrder::BGR);
    assert_eq!(PixelOrder::from(5), PixelOrder::Unknown(5));
    assert_eq!(PixelOrder::from(u32::from(PixelOrder::Unknown(1))), PixelOrder::RGB);
}

#[test]
fn req_msg_dispatch() {
    let req = ReqMsg::GetClockRate(GetClockRateRepr::new(ClockId::Emmc));
    assert_eq!(req.msg_size(), 32);
    let mut msg = Msg::new_unchecked(zeroed());
    assert_eq!(req.emit_msg(&mut msg), Ok(()));
    assert_eq!(msg.into_inner()[5], 1);
    let req = ReqMsg::AllocFramebuffer(AllocFramebufferRepr::new());
    assert_eq!(req.msg_size(), 140);
}

#[test]
fn response_codes() {
    let mut words = zeroed();
    words[1] = RESPONSE_ERROR_CODE;
    let msg = Msg::new_unchecked(words.clone());
    assert!(matches!(response_result(&msg), Err(Error::BadRequest)));
    words[1] = 0x1234;
    let msg = Msg::new_unchecked(words.clone());
    assert!(matches!(response_result(&msg), Err(Error::BadStatusWord)));
    // A success whose first tag is not one this crate parses
    words[1] = RESPONSE_SUCCESS_CODE;
    words[2] = u32::from(TagId::GetPitch);
    let msg = Msg::new_unchecked(words);
    assert!(matches!(response_result(&msg), Err(Error::UnkownTagId(0x0004_0008))));
    let msg = Msg::new_unchecked(vec![0, RESPONSE_SUCCESS_CODE, 0]);
    assert!(matches!(RespMsg::try_from(&msg), Err(Error::Truncated)));
}

#[test]
fn mailbox_buffer_copy() {
    let mut buf = MailboxBuffer::new();
    let mut words = buf.to_vec();
    words[3] = 17;
    buf.copy_from(&words);
    assert_eq!(buf.0[3], 17);
    assert_eq!(buf.to_vec(), words);
}
