use bcm2711_hal::mailbox::{
    response_result, Error, GetArmMemRepr, GetSerialNumRepr, GetTempRepr, GetVcMemRepr,
    MailboxBuffer, Msg, MsgEmitter, ReqMsg, RespMsg, RESPONSE_SUCCESS_CODE,
};

fn zeroed() -> Vec<u32> {
    MailboxBuffer::new().to_vec()
}

/// The buffer of an emitted request, answered by the firmware with the
/// success code and two value words.
fn answered(req: &ReqMsg, first: u32, second: u32) -> Msg {
    let mut msg = Msg::new_unchecked(zeroed());
    req.emit_msg(&mut msg).unwrap();
    let mut words = msg.into_inner();
    words[1] = RESPONSE_SUCCESS_CODE;
    words[5] = first;
    words[6] = second;
    Msg::new_unchecked(words)
}

#[test]
fn temperature_request_words() {
    let mut msg = Msg::new_unchecked(zeroed());
    assert_eq!(GetTempRepr::new(0).emit_request(&mut msg), Ok(()));
    assert_eq!(
        &msg.into_inner()[..8],
        &[32, 0, 0x0003_0006, 8, 0x8000_0008, 0, 0, 0]
    );
    let mut msg = Msg::new_unchecked(zeroed());
    GetTempRepr::new(7).emit_request(&mut msg).unwrap();
    assert_eq!(msg.into_inner()[5], 7);
}

#[test]
fn temperature_response_parses() {
    let msg = answered(&ReqMsg::GetTemp(GetTempRepr::new(0)), 0, 48_312);
    let repr = GetTempRepr::parse_response(&msg).unwrap();
    assert_eq!(repr.id(), 0);
    assert_eq!(repr.value(), 48_312);
    match RespMsg::try_from(&msg) {
        Ok(RespMsg::GetTemp(r)) => assert_eq!(r, repr),
        _ => panic!("expected a temperature response"),
    }
}

#[test]
fn memory_responses_parse() {
    let msg = answered(&ReqMsg::GetArmMem(GetArmMemRepr::new()), 0, 0x3B40_0000);
    match response_result(&msg) {
        Ok(RespMsg::GetArmMem(r)) => {
            assert_eq!(r.base(), 0);
            assert_eq!(r.size(), 0x3B40_0000);
        },
        _ => panic!("expected an ARM memory response"),
    }
    let msg = answered(&ReqMsg::GetVcMem(GetVcMemRepr::new()), 0x3C00_0000, 0x0400_0000);
    assert_eq!(msg.as_ref()[2], 0x0001_0006);
    match RespMsg::try_from(&msg) {
        Ok(RespMsg::GetVcMem(r)) => {
            assert_eq!(r.base(), 0x3C00_0000);
            assert_eq!(r.size(), 0x0400_0000);
        },
        _ => panic!("expected a VideoCore memory response"),
    }
}

#[test]
fn serial_number_low_word_first() {
    let msg = answered(&ReqMsg::GetSerialNum(GetSerialNumRepr::new()), 0x89AB_CDEF, 0x0123_4567);
    assert_eq!(msg.as_ref()[2], 0x0001_0004);
    match RespMsg::try_from(&msg) {
        Ok(RespMsg::GetSerialNum(r)) => assert_eq!(r.serial(), 0x0123_4567_89AB_CDEF),
        _ => panic!("expected a serial number response"),
    }
}

#[test]
fn property_parse_errors() {
    // A temperature parser refuses another tag
    let msg = answered(&ReqMsg::GetArmMem(GetArmMemRepr::new()), 1, 2);
    assert_eq!(GetTempRepr::parse_response(&msg), Err(Error::Malformed));
    // Wrong message size
    let mut words = answered(&ReqMsg::GetTemp(GetTempRepr::new(0)), 0, 1).into_inner();
    words[0] = 36;
    assert_eq!(
        GetTempRepr::parse_response(&Msg::new_unchecked(words)),
        Err(Error::Malformed)
    );
    // Wrong response size
    let mut words = answered(&ReqMsg::GetVcMem(GetVcMemRepr::new()), 0, 1).into_inner();
    words[4] = 0x8000_0004;
    assert_eq!(
        GetVcMemRepr::parse_response(&Msg::new_unchecked(words)),
        Err(Error::Malformed)
    );
    // Too short a buffer to emit into
    let mut msg = Msg::new_unchecked(vec![0; 8]);
    assert_eq!(GetSerialNumRepr::new().emit_request(&mut msg), Err(Error::Truncated));
}
