use rethink::proto::{
    DatumType, ErrorType, FrameType, Protocol, QueryType, ResponseNote, ResponseType, TermType,
    Version,
};
use std::collections::HashSet;

#[test]
fn version_codes_are_distinct() {
    let codes: Vec<u32> = vec![
        Version::V0_1.code(),
        Version::V0_2.code(),
        Version::V0_3.code(),
        Version::V0_4.code(),
    ];
    let distinct: HashSet<u32> = codes.iter().copied().collect();
    assert_eq!(codes.len(), 4);
    assert_eq!(distinct.len(), codes.len());
}

#[test]
fn protocol_codes_are_distinct() {
    let codes: Vec<u32> = vec![
        Protocol::PROTOBUF.code(),
        Protocol::JSON.code(),
    ];
    let distinct: HashSet<u32> = codes.iter().copied().collect();
    assert_eq!(codes.len(), 2);
    assert_eq!(distinct.len(), codes.len());
}

#[test]
fn query_type_codes_are_distinct() {
    let codes: Vec<u32> = vec![
        QueryType::START.code(),
        QueryType::CONTINUE.code(),
        QueryType::STOP.code(),
        QueryType::NOREPLY_WAIT.code(),
        QueryType::SERVER_INFO.code(),
    ];
    let distinct: HashSet<u32> = codes.iter().copied().collect();
    assert_eq!(codes.len(), 5);
    assert_eq!(distinct.len(), codes.len());
}

#[test]
fn frame_type_codes_are_distinct() {
    let codes: Vec<u32> = vec![
        FrameType::POS.code(),
        FrameType::OPT.code(),
    ];
    let distinct: HashSet<u32> = codes.iter().copied().collect();
    assert_eq!(codes.len(), 2);
    assert_eq!(distinct.len(), codes.len());
}

#[test]
fn response_type_codes_are_distinct() {
    let codes: Vec<u32> = vec![
        ResponseType::SUCCESS_ATOM.code(),
        ResponseType::SUCCESS_SEQUENCE.code(),
        ResponseType::SUCCESS_PARTIAL.code(),
        ResponseType::WAIT_COMPLETE.code(),
        ResponseType::SERVER_INFO.code(),
        ResponseType::CLIENT_ERROR.code(),
        ResponseType::COMPILE_ERROR.code(),
        ResponseType::RUNTIME_ERROR.code(),
    ];
    let distinct: HashSet<u32> = codes.iter().copied().collect();
    assert_eq!(codes.len(), 8);
    assert_eq!(distinct.len(), codes.len());
}

#[test]
fn error_type_codes_are_distinct() {
    let codes: Vec<u32> = vec![
        ErrorType::INTERNAL.code(),
        ErrorType::RESOURCE_LIMIT.code(),
        ErrorType::QUERY_LOGIC.code(),
        ErrorType::NON_EXISTENCE.code(),
        ErrorType::OP_FAILED.code(),
        ErrorType::OP_INDETERMINATE.code(),
        ErrorType::USER.code(),
    ];
    let distinct: HashSet<u32> = codes.iter().copied().collect();
    assert_eq!(codes.len(), 7);
    assert_eq!(distinct.len(), codes.len());
}

#[test]
fn response_note_codes_are_distinct() {
    let codes: Vec<u32> = vec![
        ResponseNote::SEQUENCE_FEED.code(),
        ResponseNote::ATOM_FEED.code(),
        ResponseNote::ORDER_BY_LIMIT_FEED.code(),
        ResponseNote::UNIONED_FEED.code(),
        ResponseNote::INCLUDES_STATES.code(),
    ];
    let distinct: HashSet<u32> = codes.iter().copied().collect();
    assert_eq!(codes.len(), 5);
    assert_eq!(distinct.len(), codes.len());
}

#[test]
fn datum_type_codes_are_distinct() {
    let codes: Vec<u32> = vec![
        DatumType::R_NULL.code(),
        DatumType::R_BOOL.code(),
        DatumType::R_NUM.code(),
        DatumType::R_STR.code(),
        DatumType::R_ARRAY.code(),
        DatumType::R_OBJECT.code(),
        DatumType::R_JSON.code(),
    ];
    let distinct: HashSet<u32> = codes.iter().copied().collect();
    assert_eq!(codes.len(), 7);
    assert_eq!(distinct.len(), codes.len());
}

#[test]
fn term_type_codes_are_distinct() {
    let codes: Vec<u32> = vec![
        TermType::DATUM.code(),
        TermType::MAKE_ARRAY.code(),
        TermType::MAKE_OBJ.code(),
        TermType::VAR.code(),
        TermType::JAVASCRIPT.code(),
        TermType::UUID.code(),
        TermType::HTTP.code(),
        TermType::ERROR.code(),
        TermType::IMPLICIT_VAR.code(),
        TermType::DB.code(),
        TermType::TABLE.code(),
        TermType::GET.code(),
        TermType::GET_ALL.code(),
        TermType::EQ.code(),
        TermType::NE.code(),
        TermType::LT.code(),
        TermType::LE.code(),
        TermType::GT.code(),
        TermType::GE.code(),
        TermType::NOT.code(),
        TermType::ADD.code(),
        TermType::SUB.code(),
        TermType::MUL.code(),
        TermType::DIV.code(),
        TermType::MOD.code(),
        TermType::FLOOR.code(),
        TermType::CEIL.code(),
        TermType::ROUND.code(),
        TermType::APPEND.code(),
        TermType::PREPEND.code(),
        TermType::DIFFERENCE.code(),
        TermType::SET_INSERT.code(),
        TermType::SET_INTERSECTION.code(),
        TermType::SET_UNION.code(),
        TermType::SET_DIFFERENCE.code(),
        TermType::SLICE.code(),
        TermType::SKIP.code(),
        TermType::LIMIT.code(),
        TermType::OFFSETS_OF.code(),
        TermType::CONTAINS.code(),
        TermType::GET_FIELD.code(),
        TermType::KEYS.code(),
        TermType::VALUES.code(),
        TermType::OBJECT.code(),
        TermType::HAS_FIELDS.code(),
        TermType::WITH_FIELDS.code(),
        TermType::PLUCK.code(),
        TermType::WITHOUT.code(),
        TermType::MERGE.code(),
        TermType::BETWEEN_DEPRECATED.code(),
        TermType::BETWEEN.code(),
        TermType::REDUCE.code(),
        TermType::MAP.code(),
        TermType::FILTER.code(),
        TermType::CONCAT_MAP.code(),
        TermType::ORDER_BY.code(),
        TermType::DISTINCT.code(),
        TermType::COUNT.code(),
        TermType::IS_EMPTY.code(),
        TermType::UNION.code(),
        TermType::NTH.code(),
        TermType::BRACKET.code(),
        TermType::INNER_JOIN.code(),
        TermType::OUTER_JOIN.code(),
        TermType::EQ_JOIN.code(),
        TermType::ZIP.code(),
        TermType::RANGE.code(),
        TermType::INSERT_AT.code(),
        TermType::DELETE_AT.code(),
        TermType::CHANGE_AT.code(),
        TermType::SPLICE_AT.code(),
        TermType::COERCE_TO.code(),
        TermType::TYPE_OF.code(),
        TermType::UPDATE.code(),
        TermType::DELETE.code(),
        TermType::REPLACE.code(),
        TermType::INSERT.code(),
        TermType::DB_CREATE.code(),
        TermType::DB_DROP.code(),
        TermType::DB_LIST.code(),
        TermType::TABLE_CREATE.code(),
        TermType::TABLE_DROP.code(),
        TermType::TABLE_LIST.code(),
        TermType::CONFIG.code(),
        TermType::STATUS.code(),
        TermType::WAIT.code(),
        TermType::RECONFIGURE.code(),
        TermType::REBALANCE.code(),
        TermType::SYNC.code(),
        TermType::INDEX_CREATE.code(),
        TermType::INDEX_DROP.code(),
        TermType::INDEX_LIST.code(),
        TermType::INDEX_STATUS.code(),
        TermType::INDEX_WAIT.code(),
        TermType::INDEX_RENAME.code(),
        TermType::FUNCALL.code(),
        TermType::BRANCH.code(),
        TermType::OR.code(),
        TermType::AND.code(),
        TermType::FOR_EACH.code(),
        TermType::FUNC.code(),
        TermType::ASC.code(),
        TermType::DESC.code(),
        TermType::INFO.code(),
        TermType::MATCH.code(),
        TermType::UPCASE.code(),
        TermType::DOWNCASE.code(),
        TermType::SAMPLE.code(),
        TermType::DEFAULT.code(),
        TermType::JSON.code(),
        TermType::TO_JSON_STRING.code(),
        TermType::ISO8601.code(),
        TermType::TO_ISO8601.code(),
        TermType::EPOCH_TIME.code(),
        TermType::TO_EPOCH_TIME.code(),
        TermType::NOW.code(),
        TermType::IN_TIMEZONE.code(),
        TermType::DURING.code(),
        TermType::DATE.code(),
        TermType::TIME_OF_DAY.code(),
        TermType::TIMEZONE.code(),
        TermType::YEAR.code(),
        TermType::MONTH.code(),
        TermType::DAY.code(),
        TermType::DAY_OF_WEEK.code(),
        TermType::DAY_OF_YEAR.code(),
        TermType::HOURS.code(),
        TermType::MINUTES.code(),
        TermType::SECONDS.code(),
        TermType::TIME.code(),
        TermType::MONDAY.code(),
        TermType::TUESDAY.code(),
        TermType::WEDNESDAY.code(),
        TermType::THURSDAY.code(),
        TermType::FRIDAY.code(),
        TermType::SATURDAY.code(),
        TermType::SUNDAY.code(),
        TermType::JANUARY.code(),
        TermType::FEBRUARY.code(),
        TermType::MARCH.code(),
        TermType::APRIL.code(),
        TermType::MAY.code(),
        TermType::JUNE.code(),
        TermType::JULY.code(),
        TermType::AUGUST.code(),
        TermType::SEPTEMBER.code(),
        TermType::OCTOBER.code(),
        TermType::NOVEMBER.code(),
        TermType::DECEMBER.code(),
        TermType::LITERAL.code(),
        TermType::GROUP.code(),
        TermType::SUM.code(),
        TermType::AVG.code(),
        TermType::MIN.code(),
        TermType::MAX.code(),
        TermType::SPLIT.code(),
        TermType::UNGROUP.code(),
        TermType::RANDOM.code(),
        TermType::CHANGES.code(),
        TermType::ARGS.code(),
        TermType::BINARY.code(),
        TermType::GEOJSON.code(),
        TermType::TO_GEOJSON.code(),
        TermType::POINT.code(),
        TermType::LINE.code(),
        TermType::POLYGON.code(),
        TermType::DISTANCE.code(),
        TermType::INTERSECTS.code(),
        TermType::INCLUDES.code(),
        TermType::CIRCLE.code(),
        TermType::GET_INTERSECTING.code(),
        TermType::FILL.code(),
        TermType::GET_NEAREST.code(),
        TermType::POLYGON_SUB.code(),
        TermType::MINVAL.code(),
        TermType::MAXVAL.code(),
    ];
    let distinct: HashSet<u32> = codes.iter().copied().collect();
    assert_eq!(codes.len(), 176);
    assert_eq!(distinct.len(), codes.len());
}
