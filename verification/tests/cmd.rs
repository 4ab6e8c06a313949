use rs_perf_test_helper::buffer::cmd::load::req::LoadReq;
use rs_perf_test_helper::buffer::cmd::save::req::{SaveInfo, SaveReq};
use rs_perf_test_helper::buffer::res::cmd::del::DelReq;
use rs_perf_test_helper::buffer::res::cmd::get::GetReq;
use rs_perf_test_helper::buffer::res::cmd::set::SetReq;
use rs_perf_test_helper::direct::cmd::convert::ConvertReq;
use rs_perf_test_helper::indirect::conv::req::get::req::GetReq as PendingReq;
use rs_perf_test_helper::retry::Retry;
use rs_perf_test_helper::rpc::common::{Duration as WireDuration, Retry as WireRetry, Uuid as WireUuid};
use rs_perf_test_helper::rpc::conv_req::GetRequest as PendingRequest;
use rs_perf_test_helper::rpc::conv_svc::{ConvertRequest, ConvertResponse};
use rs_perf_test_helper::rpc::req_buf::{LoadRequest, SaveRequest};
use rs_perf_test_helper::rpc::res_buf::{DelRequest, GetRequest, GetResponse, SetRequest};
use rs_perf_test_helper::status::{Code, Status};
use rs_perf_test_helper::time::{Duration, Timestamp};
use rs_perf_test_helper::uuid::Uuid;

const REQ: WireUuid = WireUuid { hi: 0, lo: 0xa1 };
const REPLY: WireUuid = WireUuid { hi: 1, lo: 0xb2 };
const REQ_TEXT: &str = "000000000000000000000000000000a1";

fn at(seconds: i64) -> Timestamp {
    Timestamp { seconds, nanos: 5 }
}

fn wire_retry() -> WireRetry {
    WireRetry {
        retry_max: 3,
        interval: Some(WireDuration { seconds: 0, nanos: 10_000_000 }),
        timeout: None,
    }
}

fn invalid(text: &str) -> Status {
    Status::new(Code::InvalidArgument, String::from(text))
}

fn conv_request() -> ConvertRequest {
    ConvertRequest { request_id: Some(REQ), seed: vec![1, 2, 3] }
}

fn conv_response() -> ConvertResponse {
    ConvertResponse { converted: Some(at(30)), generated: vec![9, 8] }
}

fn save_request() -> SaveRequest {
    SaveRequest {
        request_id: Some(REQ),
        reply_id: Some(REPLY),
        req: Some(conv_request()),
        received: Some(at(10)),
    }
}

fn set_request() -> SetRequest {
    SetRequest {
        request_id: Some(REQ),
        reply_id: Some(REPLY),
        res: Some(conv_response()),
        received: Some(at(10)),
        saved: Some(at(20)),
        converted: Some(at(30)),
    }
}

#[test]
fn a_complete_delete_request_is_accepted() {
    let d = DelReq::try_from(DelRequest { request_id: Some(REQ), reply_id: Some(REPLY) }).unwrap();
    assert_eq!(d.as_request_id(), Uuid::new(0, 0xa1));
    assert_eq!(d.as_reply_id(), Uuid::new(1, 0xb2));
}

#[test]
fn a_delete_request_names_its_first_missing_field() {
    let e = DelReq::try_from(DelRequest { request_id: None, reply_id: None }).unwrap_err();
    assert_eq!(e, invalid("request id missing"));
    let e = DelReq::try_from(DelRequest { request_id: None, reply_id: Some(REPLY) }).unwrap_err();
    assert_eq!(e, invalid("request id missing"));
    let e = DelReq::try_from(DelRequest { request_id: Some(REQ), reply_id: None }).unwrap_err();
    assert_eq!(e, invalid(&format!("reply id missing. request id: {REQ_TEXT}")));
}

#[test]
fn a_complete_get_request_is_accepted() {
    let g = GetReq::try_from(GetRequest {
        request_id: Some(REQ),
        reply_id: Some(REPLY),
        retry: Some(wire_retry()),
    })
    .unwrap();
    assert_eq!(g.as_request_id(), Uuid::new(0, 0xa1));
    assert_eq!(g.as_reply_id(), Uuid::new(1, 0xb2));
    assert_eq!(*g.as_retry(), Retry::new(3, Some(Duration::from_millis(10)), None));
}

#[test]
fn a_get_request_names_its_first_missing_field() {
    let e = GetReq::try_from(GetRequest { request_id: None, reply_id: None, retry: None })
        .unwrap_err();
    assert_eq!(e, invalid("request id missing"));
    let e = GetReq::try_from(GetRequest { request_id: Some(REQ), reply_id: None, retry: None })
        .unwrap_err();
    assert_eq!(e, invalid(&format!("reply id missing. request id: {REQ_TEXT}")));
    let e = GetReq::try_from(GetRequest {
        request_id: Some(REQ),
        reply_id: Some(REPLY),
        retry: None,
    })
    .unwrap_err();
    assert_eq!(e, invalid(&format!("retry missing. request id: {REQ_TEXT}")));
}

#[test]
fn a_complete_load_request_is_accepted() {
    let l = LoadReq::try_from(LoadRequest { request_id: Some(REQ), retry: Some(wire_retry()) })
        .unwrap();
    assert_eq!(l.as_request_id(), Uuid::new(0, 0xa1));
    assert_eq!(l.as_retry().as_retry_max(), 3);
    assert_eq!(l.as_retry().as_interval(), Duration::from_millis(10));
    assert_eq!(l.as_retry().as_timeout(), Duration::from_millis(100));
}

#[test]
fn a_load_request_names_its_first_missing_field() {
    let e = LoadReq::try_from(LoadRequest { request_id: None, retry: Some(wire_retry()) })
        .unwrap_err();
    assert_eq!(e, invalid("request id missing"));
    let e = LoadReq::try_from(LoadRequest { request_id: Some(REQ), retry: None }).unwrap_err();
    assert_eq!(e, invalid(&format!("retry missing. request id: {REQ_TEXT}")));
}

#[test]
fn a_complete_save_request_is_accepted() {
    let s = SaveReq::try_from(save_request()).unwrap();
    assert_eq!(s.as_request_id(), Uuid::new(0, 0xa1));
    assert_eq!(s.as_reply_id(), Uuid::new(1, 0xb2));
    assert_eq!(*s.as_received(), at(10));
    assert_eq!(s.into_request(), conv_request());
}

#[test]
fn a_save_request_names_its_first_missing_field() {
    let mut g = save_request();
    g.received = None;
    let e = SaveReq::try_from(g.clone()).unwrap_err();
    assert_eq!(e, invalid(&format!("received time missing. request id: {REQ_TEXT}")));
    g.req = None;
    let e = SaveReq::try_from(g.clone()).unwrap_err();
    assert_eq!(e, invalid(&format!("request missing. request id: {REQ_TEXT}")));
    g.reply_id = None;
    let e = SaveReq::try_from(g.clone()).unwrap_err();
    assert_eq!(e, invalid(&format!("reply id missing. request id: {REQ_TEXT}")));
    g.request_id = None;
    let e = SaveReq::try_from(g).unwrap_err();
    assert_eq!(e, invalid("request id missing"));
}

#[test]
fn a_queue_entry_keeps_its_request_and_time() {
    let si = SaveInfo::new(SaveReq::try_from(save_request()).unwrap(), at(15));
    assert_eq!(si.as_saved(), at(15));
    assert_eq!(si.into_req(), SaveReq::try_from(save_request()).unwrap());
}

#[test]
fn a_complete_set_request_is_accepted() {
    let s = SetReq::try_from(set_request()).unwrap();
    assert_eq!(s.as_request_id(), Uuid::new(0, 0xa1));
    assert_eq!(s.as_reply_id(), Uuid::new(1, 0xb2));
    assert_eq!(*s.as_received(), at(10));
    assert_eq!(*s.as_saved(), at(20));
    assert_eq!(*s.as_converted(), at(30));
    assert_eq!(s.into_response(), conv_response());
}

#[test]
fn a_set_request_names_its_first_missing_field() {
    let mut g = set_request();
    g.converted = None;
    let e = SetReq::try_from(g.clone()).unwrap_err();
    assert_eq!(e, invalid(&format!("converted missing. request id: {REQ_TEXT}")));
    g.saved = None;
    let e = SetReq::try_from(g.clone()).unwrap_err();
    assert_eq!(e, invalid(&format!("saved missing. request id: {REQ_TEXT}")));
    g.received = None;
    let e = SetReq::try_from(g.clone()).unwrap_err();
    assert_eq!(e, invalid(&format!("received missing. request id: {REQ_TEXT}")));
    g.res = None;
    let e = SetReq::try_from(g.clone()).unwrap_err();
    assert_eq!(e, invalid(&format!("response missing. request id: {REQ_TEXT}")));
    g.reply_id = None;
    let e = SetReq::try_from(g.clone()).unwrap_err();
    assert_eq!(e, invalid(&format!("reply id missing. request id: {REQ_TEXT}")));
    g.request_id = None;
    let e = SetReq::try_from(g).unwrap_err();
    assert_eq!(e, invalid("request id missing"));
}

#[test]
fn a_stored_entry_is_the_request_and_the_time_of_writing() {
    let s = SetReq::try_from(set_request()).unwrap();
    let entry = GetResponse::from(s, at(40));
    assert_eq!(
        entry,
        GetResponse {
            res: Some(conv_response()),
            received: Some(at(10)),
            saved: Some(at(20)),
            converted: Some(at(30)),
            set: Some(at(40)),
        }
    );
}

#[test]
fn a_conversion_request_needs_its_identifier() {
    let c = ConvertReq::try_from(conv_request()).unwrap();
    assert_eq!(c.as_request(), Uuid::new(0, 0xa1));
    assert_eq!(c.clone().into_seed(), vec![1, 2, 3]);
    assert_eq!(ConvertRequest::from(c), conv_request());
    let e = ConvertReq::try_from(ConvertRequest { request_id: None, seed: vec![1] }).unwrap_err();
    assert_eq!(e, invalid("request id missing"));
}

#[test]
fn a_request_for_a_pending_request_needs_its_identifier() {
    let g = PendingReq::try_from(PendingRequest { request_id: Some(REQ) }).unwrap();
    assert_eq!(g.as_request_id(), Uuid::new(0, 0xa1));
    let e = PendingReq::try_from(PendingRequest { request_id: None }).unwrap_err();
    assert_eq!(e, invalid("request id missing"));
}
