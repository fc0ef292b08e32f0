use rethink::proto::{
    DatumType, ErrorType, FrameType, Protocol, QueryType, ResponseNote, ResponseType, TermType,
    Version,
};

#[test]
fn version_codes() {
    assert_eq!(Version::V0_1.code(), 0x3f61ba36);
    assert_eq!(Version::V0_2.code(), 0x723081e1);
    assert_eq!(Version::V0_3.code(), 0x5f75e83e);
    assert_eq!(Version::V0_4.code(), 0x400c2d20);
}

#[test]
fn protocol_codes() {
    assert_eq!(Protocol::PROTOBUF.code(), 0x271ffc41);
    assert_eq!(Protocol::JSON.code(), 0x7e6970c7);
}

#[test]
fn query_and_frame_codes() {
    assert_eq!(QueryType::START.code(), 1);
    assert_eq!(QueryType::SERVER_INFO.code(), 5);
    assert_eq!(FrameType::POS.code(), 1);
    assert_eq!(FrameType::OPT.code(), 2);
}

#[test]
fn response_codes() {
    assert_eq!(ResponseType::SUCCESS_ATOM.code(), 1);
    assert_eq!(ResponseType::SERVER_INFO.code(), 5);
    assert_eq!(ResponseType::CLIENT_ERROR.code(), 16);
    assert_eq!(ResponseType::RUNTIME_ERROR.code(), 18);
    assert_eq!(ErrorType::INTERNAL.code(), 1000000);
    assert_eq!(ErrorType::NON_EXISTENCE.code(), 3100000);
    assert_eq!(ErrorType::USER.code(), 5000000);
    assert_eq!(ResponseNote::SEQUENCE_FEED.code(), 1);
    assert_eq!(ResponseNote::INCLUDES_STATES.code(), 5);
    assert_eq!(DatumType::R_NULL.code(), 1);
    assert_eq!(DatumType::R_JSON.code(), 7);
}

#[test]
fn term_codes() {
    assert_eq!(TermType::DATUM.code(), 1);
    assert_eq!(TermType::DB.code(), 14);
    assert_eq!(TermType::TABLE.code(), 15);
    assert_eq!(TermType::INSERT.code(), 56);
    assert_eq!(TermType::TABLE_CREATE.code(), 60);
    assert_eq!(TermType::TABLE_LIST.code(), 62);
    assert_eq!(TermType::UUID.code(), 169);
    assert_eq!(TermType::MAXVAL.code(), 181);
    assert_eq!(TermType::POLYGON_SUB.code(), 171);
}
