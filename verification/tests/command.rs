use torca::contract::command::{
    bootstrap_from_members, decode_application_command, decode_attention_surface, parse_bootstrap,
    parse_id_list, parse_opaque_id, parse_optional_id, parse_ticket, ApplicationCommand,
    AttentionContext, AttentionSurface, OpaqueId,
};
use torca::contract::BridgeCommand;

const ID_A: &str = "000102030405060708090a0b0c0d0e0f";
const ID_B: &str = "FFEEDDCCBBAA99887766554433221100";

#[test]
fn opaque_ids_are_thirty_two_hex_digits() {
    assert_eq!(parse_opaque_id(ID_A), Ok(OpaqueId(0x000102030405060708090a0b0c0d0e0f)));
    assert_eq!(parse_opaque_id(ID_B), Ok(OpaqueId(0xffeeddccbbaa99887766554433221100)));
    assert_eq!(parse_opaque_id("00000000000000000000000000000001"), Ok(OpaqueId(1)));
    assert_eq!(parse_opaque_id("zz"), Err("invalid opaque id".to_owned()));
    assert_eq!(parse_opaque_id(""), Err("invalid opaque id".to_owned()));
    assert_eq!(
        parse_opaque_id("000102030405060708090a0b0c0d0e0f0"),
        Err("invalid opaque id".to_owned())
    );
    assert_eq!(
        parse_opaque_id("g00102030405060708090a0b0c0d0e0f"),
        Err("invalid opaque id".to_owned())
    );
    assert_eq!(parse_optional_id(None), Ok(None));
    assert_eq!(parse_optional_id(Some(ID_A.to_owned())), Ok(Some(OpaqueId(0x000102030405060708090a0b0c0d0e0f))));
    assert_eq!(parse_optional_id(Some("x".to_owned())), Err("invalid opaque id".to_owned()));
    assert_eq!(
        parse_id_list(&vec![ID_A.to_owned(), ID_B.to_owned()]),
        Ok(vec![OpaqueId(0x000102030405060708090a0b0c0d0e0f), OpaqueId(0xffeeddccbbaa99887766554433221100)])
    );
    assert_eq!(
        parse_id_list(&vec![ID_A.to_owned(), "nope".to_owned()]),
        Err("invalid opaque id".to_owned())
    );
}

#[test]
fn attention_surfaces_decode_fixed_screens_and_resources() {
    let a = OpaqueId(0x000102030405060708090a0b0c0d0e0f);
    assert_eq!(decode_attention_surface("home"), Ok(AttentionSurface::Home));
    assert_eq!(decode_attention_surface("diagnostics"), Ok(AttentionSurface::Diagnostics));
    assert_eq!(
        decode_attention_surface(&format!("conversation:{ID_A}")),
        Ok(AttentionSurface::Conversation(a))
    );
    assert_eq!(
        decode_attention_surface(&format!("connection_details:{ID_A}")),
        Ok(AttentionSurface::ConnectionDetails(a))
    );
    assert_eq!(decode_attention_surface(&format!("pairing:{ID_A}")), Ok(AttentionSurface::Pairing(a)));
    assert_eq!(decode_attention_surface(&format!("radio:{ID_A}")), Ok(AttentionSurface::Radio(a)));
    assert_eq!(decode_attention_surface("radio:"), Err("invalid opaque id".to_owned()));
    assert_eq!(decode_attention_surface("conversation:abc"), Err("invalid opaque id".to_owned()));
    assert_eq!(
        decode_attention_surface("settings"),
        Err("invalid attention surface: settings".to_owned())
    );
    assert_eq!(
        decode_attention_surface("conversation"),
        Err("invalid attention surface: conversation".to_owned())
    );
}

#[test]
fn tickets_are_sixteen_hex_bytes() {
    let ticket = parse_ticket("000102030405060708090a0b0c0d0eFF").expect("ticket");
    assert_eq!(ticket[0], 0);
    assert_eq!(ticket[10], 10);
    assert_eq!(ticket[15], 255);
    // `u8::from_str_radix` accepts a leading plus sign in a chunk.
    let plus = parse_ticket("+f000000000000000000000000000000").expect("plus chunk");
    assert_eq!(plus[0], 15);
    assert_eq!(parse_ticket("00"), Err("invalid pairing ticket".to_owned()));
    assert_eq!(
        parse_ticket("zz0102030405060708090a0b0c0d0e0f"),
        Err("invalid pairing ticket".to_owned())
    );
    assert_eq!(
        parse_ticket("é0102030405060708090a0b0c0d0e0f"),
        Err("invalid pairing ticket".to_owned())
    );
    assert_eq!(
        parse_ticket("-10102030405060708090a0b0c0d0e0f"),
        Err("invalid pairing ticket".to_owned())
    );
}

#[test]
fn bootstrap_json_yields_provider_and_payload() {
    let bootstrap = parse_bootstrap(r#"{"provider":"iroh","payloadHex":"00aBff"}"#).expect("bootstrap");
    assert_eq!(bootstrap.provider, "iroh");
    assert_eq!(bootstrap.payload, vec![0x00, 0xab, 0xff]);
    assert_eq!(parse_bootstrap("not json").unwrap_err(), "invalid pairing bootstrap");
    assert_eq!(
        parse_bootstrap(r#"{"payloadHex":"00"}"#).unwrap_err(),
        "pairing bootstrap provider missing"
    );
    assert_eq!(
        parse_bootstrap(r#"{"provider":"iroh","payloadHex":7}"#).unwrap_err(),
        "pairing bootstrap payload missing"
    );
    assert_eq!(
        parse_bootstrap(r#"{"provider":"iroh","payloadHex":"abc"}"#).unwrap_err(),
        "pairing bootstrap payload invalid"
    );
    assert_eq!(
        parse_bootstrap(r#"{"provider":"iroh","payloadHex":"zz"}"#).unwrap_err(),
        "pairing bootstrap payload invalid"
    );
    let long = "0".repeat(4098);
    assert_eq!(
        bootstrap_from_members(Some(Some("iroh".to_owned())), Some(Some(long))).unwrap_err(),
        "pairing bootstrap payload invalid"
    );
    assert_eq!(
        bootstrap_from_members(Some(Some("tor".to_owned())), Some(Some(String::new())))
            .expect("empty payload")
            .payload,
        Vec::<u8>::new()
    );
}

#[test]
fn commands_decode_with_their_fields() {
    let a = OpaqueId(0x000102030405060708090a0b0c0d0e0f);
    let b = OpaqueId(0xffeeddccbbaa99887766554433221100);
    let decoded = decode_application_command(BridgeCommand::RenameContact {
        contact_id_hex: ID_A.to_owned(),
        display_name: "Bob".to_owned(),
    });
    assert_eq!(
        decoded,
        Ok(ApplicationCommand::RenameContact { contact_id: a, display_name: "Bob".to_owned() })
    );
    assert_eq!(
        decode_application_command(BridgeCommand::MarkIncident),
        Err("diagnostics command must be handled by the native runtime".to_owned())
    );
    let join = decode_application_command(BridgeCommand::JoinPairing {
        session_id_hex: ID_A.to_owned(),
        code: "ABC".to_owned(),
        ticket: Some("bad".to_owned()),
        bootstrap_json: Some("not json".to_owned()),
    });
    assert_eq!(join, Err("invalid pairing ticket".to_owned()));
    let join = decode_application_command(BridgeCommand::JoinPairing {
        session_id_hex: ID_A.to_owned(),
        code: "ABC".to_owned(),
        ticket: None,
        bootstrap_json: Some(r#"{"provider":"iroh","payloadHex":"01"}"#.to_owned()),
    });
    match join {
        Ok(ApplicationCommand::JoinPairing { session_id, ticket, bootstrap, .. }) => {
            assert_eq!(session_id, a);
            assert!(ticket.is_none());
            assert_eq!(bootstrap.expect("bootstrap").payload, vec![1]);
        }
        other => panic!("unexpected {other:?}"),
    }
    let attention = decode_application_command(BridgeCommand::SetAttention {
        surface: "chats!".to_owned(),
        focused_resource_id: None,
        visible_contact_ids: Vec::new(),
        generation: 4,
    });
    assert_eq!(attention, Err("invalid attention surface: chats!".to_owned()));
    let attention = decode_application_command(BridgeCommand::SetAttention {
        surface: format!("conversation:{ID_B}"),
        focused_resource_id: Some(ID_A.to_owned()),
        visible_contact_ids: vec![ID_B.to_owned(), ID_A.to_owned()],
        generation: 9,
    });
    assert_eq!(
        attention,
        Ok(ApplicationCommand::SetAttention {
            context: AttentionContext {
                surface: AttentionSurface::Conversation(b),
                focused_resource: Some(a),
                visible_contact_ids: vec![b, a],
                generation: 9,
            },
        })
    );
}

#[test]
fn commands_with_an_unparsable_id_are_refused() {
    let invalid = Err("invalid opaque id".to_owned());
    assert_eq!(
        decode_application_command(BridgeCommand::CreatePairing { session_id_hex: "zz".to_owned() }),
        invalid
    );
    // The session id is parsed before the ticket.
    assert_eq!(
        decode_application_command(BridgeCommand::JoinPairing {
            session_id_hex: "zz".to_owned(),
            code: "ABC".to_owned(),
            ticket: Some("bad".to_owned()),
            bootstrap_json: None,
        }),
        invalid
    );
    // The surface is decoded before the visible contacts.
    assert_eq!(
        decode_application_command(BridgeCommand::SetAttention {
            surface: "nowhere".to_owned(),
            focused_resource_id: None,
            visible_contact_ids: vec!["zz".to_owned()],
            generation: 1,
        }),
        Err("invalid attention surface: nowhere".to_owned())
    );
    assert_eq!(
        decode_application_command(BridgeCommand::SetAttention {
            surface: "home".to_owned(),
            focused_resource_id: Some("zz".to_owned()),
            visible_contact_ids: Vec::new(),
            generation: 1,
        }),
        invalid
    );
    assert_eq!(
        decode_application_command(BridgeCommand::SetAttention {
            surface: "home".to_owned(),
            focused_resource_id: None,
            visible_contact_ids: vec![ID_A.to_owned(), "zz".to_owned()],
            generation: 1,
        }),
        invalid
    );
    assert_eq!(
        decode_application_command(BridgeCommand::QueueMessage {
            message_id_hex: ID_A.to_owned(),
            conversation_id_hex: ID_B.to_owned(),
            body: "hi".to_owned(),
            reply_to_message_id_hex: Some("zz".to_owned()),
            at_ms: 5,
        }),
        invalid
    );
    assert_eq!(
        decode_application_command(BridgeCommand::QueueMessage {
            message_id_hex: ID_A.to_owned(),
            conversation_id_hex: ID_B.to_owned(),
            body: "hi".to_owned(),
            reply_to_message_id_hex: None,
            at_ms: 5,
        }),
        Ok(ApplicationCommand::QueueMessage {
            message_id: OpaqueId(0x000102030405060708090a0b0c0d0e0f),
            conversation_id: OpaqueId(0xffeeddccbbaa99887766554433221100),
            body: "hi".to_owned(),
            reply_to_message_id: None,
            at_ms: 5,
        })
    );
    // Radio device ids are not opaque ids and stay text.
    assert_eq!(
        decode_application_command(BridgeCommand::ConfigureRadioAudio {
            input_device_id: Some("mic-1".to_owned()),
            output_device_id: None,
        }),
        Ok(ApplicationCommand::ConfigureRadioAudio {
            input_device_id: Some("mic-1".to_owned()),
            output_device_id: None,
        })
    );
}
