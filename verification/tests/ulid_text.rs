use ersha_dispatch::config::DispatcherConfig;
use ersha_dispatch::domain::{DispatcherId, H3Cell};
use ersha_dispatch::registration::dispatcher_registration;
use ersha_dispatch::startup::{dispatcher_identity, invalid_id_message, parse_dispatcher_id};
use ersha_dispatch::ulid_codec::UlidDecodeError;

#[test]
fn parses_a_canonical_dispatcher_id() {
    let d = parse_dispatcher_id("21850M2GA1850M2GA1850M2GA1").unwrap();
    assert_eq!(d, DispatcherId(0x41414141414141414141414141414141));
}

#[test]
fn parses_lower_case_ids() {
    let d = parse_dispatcher_id("2d9rw50ma499cmaghm6dd42dtp").unwrap();
    assert_eq!(d, DispatcherId(0x4d4e385051444a59454234335a413756));
}

#[test]
fn refuses_ids_of_the_wrong_length() {
    assert_eq!(parse_dispatcher_id(""), Err(UlidDecodeError::InvalidLength));
    assert_eq!(parse_dispatcher_id("2D9RW50MA499CMAGHM6DD42DT"), Err(UlidDecodeError::InvalidLength));
    assert_eq!(parse_dispatcher_id("2D9RW50MA499CMAGHM6DD42DTPP"), Err(UlidDecodeError::InvalidLength));
}

#[test]
fn refuses_ids_with_letters_outside_the_alphabet() {
    assert_eq!(parse_dispatcher_id("2D9RW50LA499CMAGHM6DD42DTP"), Err(UlidDecodeError::InvalidChar));
    assert_eq!(parse_dispatcher_id("2D9RW50[A499CMAGHM6DD42DTP"), Err(UlidDecodeError::InvalidChar));
}

#[test]
fn identity_of_the_default_dispatcher() {
    let config = DispatcherConfig { id: "01JJNQ1KQCNZ8X9PQRV5ABCD12".to_string(), location: 7 };
    let (d, cell) = dispatcher_identity(&config).unwrap();
    assert_eq!(cell, H3Cell(7));
    assert_eq!(dispatcher_registration(d, cell).id, "01JJNQ1KQCNZ8X9PQRV5ABCD12");
}

#[test]
fn identity_error_names_the_id_and_the_reason() {
    let config = DispatcherConfig { id: "nope".to_string(), location: 7 };
    let err = dispatcher_identity(&config).unwrap_err();
    assert_eq!(err, "invalid dispatcher ID 'nope': invalid length");
    assert_eq!(
        invalid_id_message("01JJNQ1KQCNZ8X9PQRV5ABCDIL", UlidDecodeError::InvalidChar),
        "invalid dispatcher ID '01JJNQ1KQCNZ8X9PQRV5ABCDIL': invalid character"
    );
}

#[test]
fn registration_writes_ids_as_canonical_text() {
    let r = dispatcher_registration(DispatcherId(0x41414141414141414141414141414141), H3Cell(0x8a2a1072b59ffff));
    assert_eq!(r.id, "21850M2GA1850M2GA1850M2GA1");
    assert_eq!(r.location, 0x8a2a1072b59ffff);
    let zero = dispatcher_registration(DispatcherId(0), H3Cell(0));
    assert_eq!(zero.id, "00000000000000000000000000");
}

#[test]
fn written_ids_read_back_as_the_same_id() {
    for v in [0u128, 1, 31, 0x41414141414141414141414141414141, u128::MAX] {
        let text = dispatcher_registration(DispatcherId(v), H3Cell(0)).id;
        assert_eq!(parse_dispatcher_id(&text), Ok(DispatcherId(v)));
    }
}
