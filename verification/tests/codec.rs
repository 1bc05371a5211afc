use angeldust::codec::{next_multiple_of_16, next_multiple_of_4, push_zeros, Payload};
use angeldust::framebuffer::{
    AllocateBufferRequest, AllocateBufferResponse, Framebuffer, FramebufferInitializeRequest,
    FramebufferInitializeResponse, GetPitchMessage, PixelOrder, SetDepthMessage,
    SetDisplaySizeMessage, SetPixelOrderMessage, SetVirtualOffsetMessage,
};
use angeldust::mac::MacAddress;
use angeldust::mailbox::{
    CombinedTag, GetArmMemory, GetBoardMacAddress, GetBoardRevision, GetFirmwareVersionMessage,
    Message, MessageBuilder, MessageHeader, MessageStatus, MessageTag, TagIdentifier,
};

#[test]
fn rounding_to_four() {
    assert_eq!(next_multiple_of_4(0), 0);
    assert_eq!(next_multiple_of_4(1), 4);
    assert_eq!(next_multiple_of_4(3), 4);
    assert_eq!(next_multiple_of_4(4), 4);
    assert_eq!(next_multiple_of_4(5), 8);
    assert_eq!(next_multiple_of_4(6), 8);
    assert_eq!(next_multiple_of_4(0xFFFF_FFF9), 0xFFFF_FFFC);
    assert_eq!(next_multiple_of_4(0xFFFF_FFFC), 0xFFFF_FFFC);
}

#[test]
fn rounding_to_sixteen() {
    assert_eq!(next_multiple_of_16(0), 0);
    assert_eq!(next_multiple_of_16(1), 16);
    assert_eq!(next_multiple_of_16(16), 16);
    assert_eq!(next_multiple_of_16(28), 32);
    assert_eq!(next_multiple_of_16(144), 144);
    assert_eq!(next_multiple_of_16(145), 160);
    assert_eq!(next_multiple_of_16(0xFFFF_FFF0), 0xFFFF_FFF0);
}

#[test]
fn rounding_never_loses_a_byte() {
    let mut n: u32 = 0;
    while n < 200 {
        let four = next_multiple_of_4(n);
        assert!(four >= n && four < n + 4 && four % 4 == 0);
        let sixteen = next_multiple_of_16(n);
        assert!(sixteen >= n && sixteen < n + 16 && sixteen % 16 == 0);
        n += 1;
    }
}

#[test]
fn zeros_are_appended() {
    let mut words = vec![7u32];
    push_zeros(&mut words, 0);
    assert_eq!(words, vec![7]);
    push_zeros(&mut words, 3);
    assert_eq!(words, vec![7, 0, 0, 0]);
}

#[test]
fn payload_sizes() {
    assert_eq!(GetFirmwareVersionMessage::size(), 4);
    assert_eq!(GetBoardRevision::size(), 4);
    assert_eq!(GetBoardMacAddress::size(), 6);
    assert_eq!(GetArmMemory::size(), 8);
    assert_eq!(AllocateBufferRequest::size(), 8);
    assert_eq!(AllocateBufferResponse::size(), 8);
    assert_eq!(SetDisplaySizeMessage::size(), 8);
    assert_eq!(SetVirtualOffsetMessage::size(), 8);
    assert_eq!(SetDepthMessage::size(), 4);
    assert_eq!(SetPixelOrderMessage::size(), 8);
    assert_eq!(GetPitchMessage::size(), 4);
    assert_eq!(MessageTag::<GetBoardMacAddress>::size(), 20);
    assert_eq!(MessageTag::<SetDepthMessage>::size(), 16);
    assert_eq!(FramebufferInitializeRequest::size(), 132);
    assert_eq!(FramebufferInitializeResponse::size(), 132);
}

#[test]
fn value_size_is_the_size_rounded_up() {
    assert_eq!(GetFirmwareVersionMessage::new().value_size, 4);
    assert_eq!(GetBoardRevision::new().value_size, 4);
    assert_eq!(GetBoardMacAddress::new().value_size, 8);
    assert_eq!(GetArmMemory::new().value_size, 8);
    assert_eq!(AllocateBufferRequest::new(16).value_size, 8);
    assert_eq!(SetDisplaySizeMessage::new_physical(1, 2).value_size, 8);
    assert_eq!(SetDisplaySizeMessage::new_virtual(1, 2).value_size, 8);
    assert_eq!(SetVirtualOffsetMessage::new(0, 0).value_size, 8);
    assert_eq!(SetDepthMessage::new(32).value_size, 4);
    assert_eq!(SetPixelOrderMessage::new(PixelOrder::RGB).value_size, 8);
    assert_eq!(GetPitchMessage::new().value_size, 4);
    let nested = MessageTag::new(TagIdentifier::GetArmMemory, GetBoardMacAddress::new());
    assert_eq!(nested.value_size, 20);
    assert!(GetBoardMacAddress::new().value_size >= GetBoardMacAddress::size());
}

#[test]
fn tag_constructors_set_identifier_and_data() {
    let tag = SetDisplaySizeMessage::new_physical(1280, 720);
    assert_eq!(tag.identifier, 0x48003);
    assert_eq!(tag.codes, 0);
    assert_eq!(tag.data, SetDisplaySizeMessage { width: 1280, height: 720 });
    assert_eq!(tag.tag_identifier(), Some(TagIdentifier::SetPhysicalDisplaySize));
    let tag = SetDisplaySizeMessage::new_virtual(640, 480);
    assert_eq!(tag.identifier, 0x48004);
    assert_eq!(tag.data, SetDisplaySizeMessage { width: 640, height: 480 });
    let tag = SetVirtualOffsetMessage::new(3, 4);
    assert_eq!(tag.identifier, 0x48009);
    assert_eq!(tag.data, SetVirtualOffsetMessage { x: 3, y: 4 });
    let tag = SetDepthMessage::new(24);
    assert_eq!(tag.identifier, 0x48005);
    assert_eq!(tag.data, SetDepthMessage { bits_per_pixel: 24 });
    let tag = SetPixelOrderMessage::new(PixelOrder::RGB);
    assert_eq!(tag.identifier, 0x48006);
    assert_eq!(tag.data, SetPixelOrderMessage { pixel_order: PixelOrder::RGB });
    let tag = AllocateBufferRequest::new(4096);
    assert_eq!(tag.identifier, 0x40001);
    assert_eq!(tag.data, AllocateBufferRequest { alignment: 4096, padding: 0 });
    let tag = GetPitchMessage::new();
    assert_eq!(tag.identifier, 0x40008);
    assert_eq!(tag.data, GetPitchMessage { bytes_per_line: 0 });
    let tag = GetFirmwareVersionMessage::new();
    assert_eq!(tag.identifier, 0x00001);
    assert_eq!(tag.data, GetFirmwareVersionMessage { firmware_version: 0 });
    let tag = GetBoardRevision::new();
    assert_eq!(tag.identifier, 0x10002);
    assert_eq!(tag.data, GetBoardRevision { board_revision: 0 });
    let tag = GetBoardMacAddress::new();
    assert_eq!(tag.identifier, 0x10003);
    assert_eq!(tag.data, GetBoardMacAddress { address: MacAddress([0; 6]) });
    let tag = GetArmMemory::new();
    assert_eq!(tag.identifier, 0x10005);
    assert_eq!(tag.data, GetArmMemory { base_address: 0, size: 0 });
}

#[test]
fn tag_identifier_codes() {
    let all = [
        (TagIdentifier::GetFirmwareVersion, 0x00001u32),
        (TagIdentifier::GetBoardRevision, 0x10002),
        (TagIdentifier::GetBoardMacAddress, 0x10003),
        (TagIdentifier::GetArmMemory, 0x10005),
        (TagIdentifier::AllocateBuffer, 0x40001),
        (TagIdentifier::SetPhysicalDisplaySize, 0x48003),
        (TagIdentifier::SetVirtualDisplaySize, 0x48004),
        (TagIdentifier::SetDepth, 0x48005),
        (TagIdentifier::SetPixelOrder, 0x48006),
        (TagIdentifier::GetPitch, 0x40008),
        (TagIdentifier::SetVirtualOffset, 0x48009),
    ];
    for (identifier, code) in all {
        assert_eq!(identifier.code(), code);
        assert_eq!(TagIdentifier::from_code(code), Some(identifier));
    }
    assert_eq!(TagIdentifier::from_code(0), None);
    assert_eq!(TagIdentifier::from_code(0x48007), None);
}

#[test]
fn status_codes() {
    assert_eq!(MessageStatus::Request.code(), 0x0000_0000);
    assert_eq!(MessageStatus::Success.code(), 0x8000_0000);
    assert_eq!(MessageStatus::Error.code(), 0x8000_0001);
    assert_eq!(MessageStatus::from_code(0), Some(MessageStatus::Request));
    assert_eq!(MessageStatus::from_code(0x8000_0000), Some(MessageStatus::Success));
    assert_eq!(MessageStatus::from_code(0x8000_0001), Some(MessageStatus::Error));
    assert_eq!(MessageStatus::from_code(1), None);
}

#[test]
fn single_tag_message_layout() {
    let tag: MessageTag<SetDepthMessage> = SetDepthMessage::new(32);
    let message = Message::new(tag);
    assert_eq!(message.size, 32);
    assert_eq!(message.status, MessageStatus::Request);
    assert_eq!(message.data, tag);
    assert_eq!(message.end, 0);
    let words = message.encode();
    assert_eq!(words, vec![32, 0, 0x48005, 4, 0, 32, 0, 0]);
    assert_eq!(words.len() * 4, message.size as usize);
}

#[test]
fn header_size_is_the_buffer_length() {
    let message = Message::new(GetBoardMacAddress::new());
    assert_eq!(message.size, 32);
    assert_eq!(message.encode().len() * 4, 32);
    let message = Message::new(GetArmMemory::new());
    assert_eq!(message.size, 32);
    assert_eq!(message.encode().len() * 4, 32);
    let message = Message::new(SetDepthMessage { bits_per_pixel: 1 });
    assert_eq!(message.size, 16);
    assert_eq!(message.encode(), vec![16, 0, 1, 0]);
    let message = Message::new(GetArmMemory { base_address: 1, size: 2 });
    assert_eq!(message.size, 32);
    assert_eq!(message.encode(), vec![32, 0, 1, 2, 0, 0, 0, 0]);
    let message = Framebuffer::new().request().unwrap();
    assert_eq!(message.size, 144);
    assert_eq!(message.size % 16, 0);
    assert_eq!(message.encode().len() * 4, 144);
}

#[test]
fn mac_address_fills_two_words() {
    let address = MacAddress([0xB8, 0x27, 0xEB, 0x12, 0x34, 0x56]);
    let mut words = Vec::new();
    address.encode(&mut words);
    assert_eq!(words, vec![0x12EB_27B8, 0x0000_5634]);
    assert_eq!(MacAddress::decode(&words), address);
    assert_eq!(MacAddress::decode(&[0x12EB_27B8, 0xFFFF_5634, 9]), address);
    let payload = GetBoardMacAddress { address };
    let mut out = vec![1u32];
    payload.encode(&mut out);
    assert_eq!(out, vec![1, 0x12EB_27B8, 0x0000_5634]);
    assert_eq!(GetBoardMacAddress::decode(&out[1..]), payload);
    assert_eq!(MacAddress::zero(), MacAddress([0; 6]));
}

#[test]
fn pixel_order_words() {
    let mut words = Vec::new();
    SetPixelOrderMessage { pixel_order: PixelOrder::BGR }.encode(&mut words);
    SetPixelOrderMessage { pixel_order: PixelOrder::RGB }.encode(&mut words);
    SetPixelOrderMessage { pixel_order: PixelOrder::Unknown(77) }.encode(&mut words);
    assert_eq!(words, vec![0, 0, 1, 0, 2, 77]);
    assert_eq!(SetPixelOrderMessage::decode(&[0, 5]).pixel_order, PixelOrder::BGR);
    assert_eq!(SetPixelOrderMessage::decode(&[1, 5]).pixel_order, PixelOrder::RGB);
    assert_eq!(SetPixelOrderMessage::decode(&[2, 5]).pixel_order, PixelOrder::Unknown(5));
    assert_eq!(SetPixelOrderMessage::decode(&[9, 6]).pixel_order, PixelOrder::Unknown(6));
}

#[test]
fn leaf_payloads_round_trip() {
    let mut words = Vec::new();
    let memory = GetArmMemory { base_address: 0x1000, size: 0x2000 };
    memory.encode(&mut words);
    assert_eq!(words, vec![0x1000, 0x2000]);
    assert_eq!(GetArmMemory::decode(&words), memory);
    let size = SetDisplaySizeMessage { width: 1280, height: 720 };
    let mut words = Vec::new();
    size.encode(&mut words);
    assert_eq!(words, vec![1280, 720]);
    assert_eq!(SetDisplaySizeMessage::decode(&words), size);
    let buffer = AllocateBufferResponse { base_address: 0xC000_0000, size: 3_686_400 };
    let mut words = Vec::new();
    buffer.encode(&mut words);
    assert_eq!(words, vec![0xC000_0000, 3_686_400]);
    assert_eq!(AllocateBufferResponse::decode(&words), buffer);
    assert_eq!(
        AllocateBufferRequest::decode(&[16, 0]),
        AllocateBufferRequest { alignment: 16, padding: 0 }
    );
    assert_eq!(SetVirtualOffsetMessage::decode(&[3, 4]), SetVirtualOffsetMessage { x: 3, y: 4 });
    assert_eq!(SetDepthMessage::decode(&[32]), SetDepthMessage { bits_per_pixel: 32 });
    assert_eq!(GetPitchMessage::decode(&[5120]), GetPitchMessage { bytes_per_line: 5120 });
    assert_eq!(
        GetFirmwareVersionMessage::decode(&[0x5F5E]),
        GetFirmwareVersionMessage { firmware_version: 0x5F5E }
    );
    assert_eq!(GetBoardRevision::decode(&[0xA02082]), GetBoardRevision { board_revision: 0xA02082 });
}

#[test]
fn tag_round_trip_ignores_what_follows() {
    let tag = SetDisplaySizeMessage::new_physical(1280, 720);
    let mut words = Vec::new();
    tag.encode(&mut words);
    assert_eq!(words, vec![0x48003, 8, 0, 1280, 720]);
    assert_eq!(MessageTag::<SetDisplaySizeMessage>::decode(&words), tag);
    words.push(99);
    words.push(98);
    assert_eq!(MessageTag::<SetDisplaySizeMessage>::decode(&words), tag);
}

#[test]
fn initialize_request_layout() {
    let message = Framebuffer::new().request().unwrap();
    let words = message.encode();
    let expected: Vec<u32> = vec![
        144, 0, // header
        0x48003, 8, 0, 1280, 720, // physical size
        0x48004, 8, 0, 1280, 720, // virtual size
        0x48009, 8, 0, 0, 0, // virtual offset
        0x48005, 4, 0, 32, // depth
        0x48006, 8, 0, 0, 0, // pixel order
        0x40001, 8, 0, 16, 0, // allocate buffer
        0x40008, 4, 0, 0, // pitch
        0, // end tag
    ];
    assert_eq!(words, expected);
    let decoded = FramebufferInitializeRequest::decode(&words[2..]);
    assert_eq!(decoded, message.data);
}

#[test]
fn word_lengths() {
    assert_eq!(GetBoardMacAddress::word_len(), 2);
    assert_eq!(SetDepthMessage::word_len(), 1);
    assert_eq!(SetPixelOrderMessage::word_len(), 2);
    assert_eq!(MessageTag::<GetBoardMacAddress>::word_len(), 5);
    assert_eq!(MessageTag::<GetPitchMessage>::word_len(), 4);
    assert_eq!(FramebufferInitializeRequest::word_len(), 33);
    assert_eq!(FramebufferInitializeResponse::word_len(), 33);
    assert_eq!(CombinedTag::<GetBoardMacAddress, SetDepthMessage>::word_len(), 3);
}

#[test]
fn header_is_a_message() {
    let header: MessageHeader<MessageTag<GetBoardRevision>> =
        MessageHeader::new(GetBoardRevision::new());
    assert_eq!(header, Message::new(GetBoardRevision::new()));
    assert_eq!(header.size, 32);
    assert_eq!(header.encode(), vec![32, 0, 0x10002, 4, 0, 0, 0, 0]);
}

#[test]
fn combined_values_start_on_word_boundaries() {
    let address = MacAddress([1, 2, 3, 4, 5, 6]);
    let pair = CombinedTag(GetBoardMacAddress { address }, SetDepthMessage { bits_per_pixel: 32 });
    assert_eq!(CombinedTag::<GetBoardMacAddress, SetDepthMessage>::size(), 12);
    let mut words = Vec::new();
    pair.encode(&mut words);
    assert_eq!(words, vec![0x0403_0201, 0x0000_0605, 32]);
    assert_eq!(CombinedTag::<GetBoardMacAddress, SetDepthMessage>::decode(&words), pair);
    let swapped = CombinedTag(SetDepthMessage { bits_per_pixel: 32 }, GetBoardMacAddress { address });
    assert_eq!(CombinedTag::<SetDepthMessage, GetBoardMacAddress>::size(), 10);
    let mut words = Vec::new();
    swapped.encode(&mut words);
    assert_eq!(words, vec![32, 0x0403_0201, 0x0000_0605]);
    assert_eq!(CombinedTag::<SetDepthMessage, GetBoardMacAddress>::decode(&words), swapped);
}

#[test]
fn builder_collects_tags_in_order() {
    let builder = MessageBuilder::new(GetBoardMacAddress::new())
        .with(GetFirmwareVersionMessage::new())
        .with(GetArmMemory::new())
        .with(GetBoardRevision::new());
    assert_eq!(
        builder.0,
        CombinedTag(
            CombinedTag(
                CombinedTag(GetBoardMacAddress::new(), GetFirmwareVersionMessage::new()),
                GetArmMemory::new()
            ),
            GetBoardRevision::new()
        )
    );
    let message = builder.build();
    assert_eq!(message.size, 96);
    assert_eq!(message.status, MessageStatus::Request);
    let words = message.encode();
    let expected: Vec<u32> = vec![
        96, 0, // header
        0x10003, 8, 0, 0, 0, // MAC address
        0x00001, 4, 0, 0, // firmware version
        0x10005, 8, 0, 0, 0, // ARM memory
        0x10002, 4, 0, 0, // board revision
        0, // end tag
        0, 0, 0, // padding
    ];
    assert_eq!(words, expected);
}

#[test]
fn combined_reply_is_read_tag_by_tag() {
    let words: Vec<u32> = vec![
        0x10003, 8, 0x8000_0006, 0x12EB_27B8, 0x5634, // MAC address
        0x00001, 4, 0x8000_0004, 0x5F5E_1234, // firmware version
        0x10005, 8, 0x8000_0008, 0, 0x3B40_0000, // ARM memory
        0x10002, 4, 0x8000_0004, 0x00A0_2082, // board revision
        0, 0, 0, 0,
    ];
    type Reply = CombinedTag<
        CombinedTag<
            CombinedTag<MessageTag<GetBoardMacAddress>, MessageTag<GetFirmwareVersionMessage>>,
            MessageTag<GetArmMemory>,
        >,
        MessageTag<GetBoardRevision>,
    >;
    let CombinedTag(CombinedTag(CombinedTag(mac, firmware), memory), revision) =
        Reply::decode(&words);
    assert_eq!(mac.data.address, MacAddress([0xB8, 0x27, 0xEB, 0x12, 0x34, 0x56]));
    assert_eq!(mac.codes, 0x8000_0006);
    assert_eq!(firmware.data.firmware_version, 0x5F5E_1234);
    assert_eq!(memory.data, GetArmMemory { base_address: 0, size: 0x3B40_0000 });
    assert_eq!(revision.data.board_revision, 0x00A0_2082);
    assert_eq!(revision.tag_identifier(), Some(TagIdentifier::GetBoardRevision));
}

#[test]
fn message_is_read_back_from_its_words() {
    let message = Message::new(SetDisplaySizeMessage::new_physical(1280, 720));
    let words = message.encode();
    assert_eq!(words, vec![32, 0, 0x48003, 8, 0, 1280, 720, 0]);
    assert_eq!(Message::decode(&words), Some(message));
    let mut reply = words.clone();
    reply[1] = 0x8000_0000;
    reply[4] = 0x8000_0008;
    reply[5] = 1920;
    reply[6] = 1080;
    let decoded: Message<MessageTag<SetDisplaySizeMessage>> = Message::decode(&reply).unwrap();
    assert_eq!(decoded.status, MessageStatus::Success);
    assert_eq!(decoded.size, 32);
    assert_eq!(decoded.end, 0);
    assert_eq!(decoded.data.codes, 0x8000_0008);
    assert_eq!(decoded.data.data, SetDisplaySizeMessage { width: 1920, height: 1080 });
    reply[1] = 0x8000_0001;
    let failed: Message<MessageTag<SetDisplaySizeMessage>> = Message::decode(&reply).unwrap();
    assert_eq!(failed.status, MessageStatus::Error);
    reply[1] = 7;
    assert_eq!(Message::<MessageTag<SetDisplaySizeMessage>>::decode(&reply), None);
}
