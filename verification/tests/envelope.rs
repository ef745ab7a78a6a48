use base64::prelude::BASE64_STANDARD;
use base64::{DecodeError, Engine};
use gateway::envelope::{XResponse, FAILURE_CODE};
use gateway::error::{BaseError, Error};

fn envelope_with(data: &str) -> XResponse<String> {
    XResponse { data: data.to_string(), msg: String::new(), code: 0 }
}

#[test]
fn new_wraps_a_known_payload() {
    let r = XResponse::<String>::new(&b"hello".to_vec());
    assert_eq!(r.data, "aGVsbG8=");
    assert_eq!(r.msg, "");
    assert_eq!(r.code, 0);
}

#[test]
fn new_does_not_hand_the_payload_back_as_text() {
    let r = XResponse::<String>::new(&b"plain".to_vec());
    assert_ne!(r.data.as_bytes(), b"plain");
    assert_eq!(r.data, "cGxhaW4=");
}

#[test]
fn new_of_an_empty_payload_has_empty_data() {
    let r = XResponse::<String>::new(&Vec::new());
    assert_eq!(r, XResponse { data: String::new(), msg: String::new(), code: 0 });
}

#[test]
fn new_pads_to_whole_groups_of_four() {
    assert_eq!(XResponse::<String>::new(&vec![0xff]).data, "/w==");
    assert_eq!(XResponse::<String>::new(&vec![0xff, 0xee]).data, "/+4=");
    assert_eq!(XResponse::<String>::new(&vec![0xff, 0xee, 0xdd]).data, "/+7d");
    assert_eq!(XResponse::<String>::new(&vec![0xff, 0xee, 0xdd, 0xcc]).data, "/+7dzA==");
}

#[test]
fn data_is_four_characters_for_every_started_three_bytes() {
    for n in 0usize..50 {
        let payload = vec![0x5a_u8; n];
        let r = XResponse::<String>::new(&payload);
        assert_eq!(r.data.chars().count(), 4 * ((n + 2) / 3));
    }
}

#[test]
fn fits_accepts_what_can_be_encoded() {
    assert!(XResponse::<String>::fits(0));
    assert!(XResponse::<String>::fits(1));
    assert!(XResponse::<String>::fits(1 << 20));
    let most = (isize::MAX as usize) / 4 * 3;
    assert!(XResponse::<String>::fits(most));
    assert!(!XResponse::<String>::fits(most + 1));
    assert!(!XResponse::<String>::fits(usize::MAX));
}

#[test]
fn payload_reads_back_what_new_wrapped() {
    let samples: Vec<Vec<u8>> = vec![
        vec![],
        vec![0],
        vec![0, 0],
        vec![255, 254, 253],
        b"balance=1024.50;margin=12".to_vec(),
        (0u8..=255).collect(),
    ];
    for sample in samples {
        let envelope = XResponse::<String>::new(&sample);
        assert_eq!(envelope.payload(), Ok(sample));
    }
}

#[test]
fn payload_decodes_a_known_text() {
    assert_eq!(envelope_with("aGk=").payload(), Ok(b"hi".to_vec()));
    assert_eq!(envelope_with("").payload(), Ok(Vec::new()));
}

#[test]
fn payload_refuses_a_foreign_character() {
    assert_eq!(
        envelope_with("aG k").payload(),
        Err(Error::Base64DocodeErr(DecodeError::InvalidByte(2, b' ')))
    );
}

#[test]
fn payload_refuses_missing_padding() {
    assert_eq!(envelope_with("aGk").payload(), Err(Error::Base64DocodeErr(DecodeError::InvalidPadding)));
}

#[test]
fn payload_refuses_a_lone_character() {
    assert_eq!(envelope_with("a").payload(), Err(Error::Base64DocodeErr(DecodeError::InvalidLength(1))));
}

#[test]
fn payload_refuses_stray_bits_in_the_last_symbol() {
    let r = envelope_with("aGl=").payload();
    assert!(matches!(r, Err(Error::Base64DocodeErr(DecodeError::InvalidLastSymbol { .. }))));
}

#[test]
fn payload_accepts_canonical_texts_only() {
    // every text that decodes is the encoding of what it decodes to
    for text in ["aGk=", "aGl=", "aGk", "/w==", "/x==", "AAAA", "AA==", "AB=="] {
        if let Ok(bytes) = envelope_with(text).payload() {
            assert_eq!(XResponse::<String>::new(&bytes).data, text);
        }
    }
}

#[test]
fn failure_of_a_routing_error() {
    let r = XResponse::<String>::failure(&Error::BaseErr(BaseError::AccountNotFound));
    assert_eq!(
        r,
        XResponse { data: String::new(), msg: "account not found".to_string(), code: -1 }
    );
    assert_eq!(FAILURE_CODE, -1);
}

#[test]
fn failure_of_a_refused_request() {
    let r = XResponse::<String>::failure(&Error::SimpleErr("Symbol can't be null".to_string()));
    assert_eq!(r.data, "");
    assert_eq!(r.msg, "Symbol can't be null");
    assert_eq!(r.code, -1);
}

#[test]
fn failure_of_a_decoding_error_uses_the_decoder_text() {
    let r = XResponse::<String>::failure(&Error::Base64DocodeErr(DecodeError::InvalidPadding));
    assert_eq!(r.data, "");
    assert_eq!(r.msg, DecodeError::InvalidPadding.to_string());
    assert_eq!(r.msg, "Invalid padding");
    assert_eq!(r.code, -1);
}

#[test]
fn success_keeps_the_text_it_is_given() {
    let r = XResponse::<String>::success("aGVsbG8=".to_string());
    assert_eq!(r, XResponse { data: "aGVsbG8=".to_string(), msg: String::new(), code: 0 });
    let empty = XResponse::<String>::success(String::new());
    assert_eq!(empty, XResponse { data: String::new(), msg: String::new(), code: 0 });
    let odd = XResponse::<String>::success("not base64 at all".to_string());
    assert_eq!(odd.data, "not base64 at all");
    assert_eq!(odd.code, 0);
}

#[test]
fn a_client_that_decodes_data_gets_the_bytes_back() {
    let samples: Vec<Vec<u8>> = vec![
        vec![],
        vec![0x80],
        vec![0xff, 0x80, 0x00, 0x7f],
        (0u8..=255).rev().collect(),
        vec![0xAB; 1000],
    ];
    for v in samples {
        let result = XResponse::<String>::new(&v);
        assert_eq!(BASE64_STANDARD.decode(result.data.as_bytes()), Ok(v.clone()));
    }
}
