use rs_perf_test_helper::buffer::cmd::save::req::{SaveInfo, SaveReq};
use rs_perf_test_helper::buffer::vecdeque::svc::{
    buf_svc_st_new, request_buffer_service_new, BufSvcSt, Reply, Req,
};
use rs_perf_test_helper::poll::{Action, Pulse};
use rs_perf_test_helper::rpc::common::{Duration as WireDuration, Retry as WireRetry, Uuid as WireUuid};
use rs_perf_test_helper::rpc::conv_svc::ConvertRequest;
use rs_perf_test_helper::rpc::req_buf::{
    LoadRequest, LoadResponse, ReqBufferService, SaveRequest, SaveResponse,
};
use rs_perf_test_helper::status::{Code, Status};
use rs_perf_test_helper::time::{Duration, Timestamp};

fn at(seconds: i64) -> Timestamp {
    Timestamp { seconds, nanos: 0 }
}

fn save_request(n: u64) -> SaveRequest {
    SaveRequest {
        request_id: Some(WireUuid { hi: 1, lo: n }),
        reply_id: Some(WireUuid { hi: 2, lo: n }),
        req: Some(ConvertRequest {
            request_id: Some(WireUuid { hi: 1, lo: n }),
            seed: n.to_be_bytes().to_vec(),
        }),
        received: Some(at(n as i64)),
    }
}

fn entry(n: u64) -> SaveInfo {
    SaveInfo::new(SaveReq::try_from(save_request(n)).unwrap(), at(1_000 + n as i64))
}

fn load_request(retry_max: u64) -> LoadRequest {
    LoadRequest {
        request_id: Some(WireUuid { hi: 9, lo: 9 }),
        retry: Some(WireRetry {
            retry_max,
            interval: Some(WireDuration { seconds: 0, nanos: 10_000_000 }),
            timeout: Some(WireDuration { seconds: 0, nanos: 100_000_000 }),
        }),
    }
}

fn too_many(size: usize) -> Status {
    Status::new(Code::Unavailable, format!("too many requests. size: {size}"))
}

#[test]
fn a_queue_of_maximum_16_admits_while_its_size_does_not_exceed_16() {
    let mut q = request_buffer_service_new(16);
    for n in 0..16 {
        assert_eq!(q.save_at(entry(n), at(5)), Ok(at(5)));
    }
    assert_eq!(q.len(), 16);
    assert_eq!(q.save_at(entry(16), at(6)), Ok(at(6)));
    assert_eq!(q.len(), 17);
    assert_eq!(q.save_at(entry(17), at(7)), Err(too_many(17)));
    assert_eq!(q.len(), 17);
    assert_eq!(q.save_at(entry(18), at(8)), Err(too_many(17)));
    assert_eq!(q.len(), 17);
}

#[test]
fn a_refused_entry_leaves_the_queue_as_it_was() {
    let mut q = request_buffer_service_new(1);
    assert!(q.save_at(entry(1), at(0)).is_ok());
    assert!(q.save_at(entry(2), at(0)).is_ok());
    assert_eq!(q.save_at(entry(3), at(0)), Err(too_many(2)));
    assert_eq!(q.pop(), Ok(entry(1)));
    assert_eq!(q.pop(), Ok(entry(2)));
    assert_eq!(q.pop().unwrap_err().code(), Code::NotFound);
}

#[test]
fn a_queue_of_maximum_0_holds_one_entry() {
    let mut q = buf_svc_st_new(0);
    assert_eq!(q.len(), 0);
    assert!(q.save_at(entry(1), at(0)).is_ok());
    assert_eq!(q.save_at(entry(2), at(0)), Err(too_many(1)));
    assert_eq!(q.pop(), Ok(entry(1)));
    assert!(q.save_at(entry(3), at(0)).is_ok());
    assert_eq!(q.len(), 1);
}

#[test]
fn entries_leave_in_the_order_they_came() {
    let mut q = request_buffer_service_new(8);
    for n in [5, 3, 9] {
        assert!(q.save_at(entry(n), at(0)).is_ok());
    }
    assert_eq!(q.pop(), Ok(entry(5)));
    assert!(q.save_at(entry(1), at(0)).is_ok());
    assert_eq!(q.pop(), Ok(entry(3)));
    assert_eq!(q.pop(), Ok(entry(9)));
    assert_eq!(q.pop(), Ok(entry(1)));
    assert_eq!(q.len(), 0);
}

#[test]
fn an_empty_queue_has_nothing() {
    let mut q = request_buffer_service_new(4);
    assert_eq!(q.pop(), Err(Status::not_found("no request for now. try again")));
    assert_eq!(q.len(), 0);
}

#[test]
fn an_entry_is_handed_out_once() {
    let mut q = request_buffer_service_new(4);
    assert!(q.save_at(entry(1), at(0)).is_ok());
    assert_eq!(q.pop(), Ok(entry(1)));
    assert_eq!(q.pop().unwrap_err().code(), Code::NotFound);
}

#[test]
fn save_answers_with_the_time_of_acceptance() {
    let mut q = request_buffer_service_new(4);
    let t = q.save(entry(1)).unwrap();
    assert!(t.seconds > 1_600_000_000);
    assert!((0..1_000_000_000).contains(&t.nanos));
    assert_eq!(q.len(), 1);
}

#[test]
fn commands_are_applied_one_by_one() {
    let mut q = request_buffer_service_new(0);
    assert_eq!(q.handle_at(Req::PushBack(entry(1)), at(3)), Reply::PushBack(Ok(at(3))));
    assert_eq!(q.handle_at(Req::PushBack(entry(2)), at(4)), Reply::PushBack(Err(too_many(1))));
    assert_eq!(q.handle_at(Req::PopFront, at(5)), Reply::PopFront(Ok(entry(1))));
    match q.handle(Req::PopFront) {
        Reply::PopFront(Err(e)) => assert_eq!(e.code(), Code::NotFound),
        other => panic!("unexpected {other:?}"),
    }
    match q.handle(Req::PushBack(entry(7))) {
        Reply::PushBack(Ok(t)) => assert!(t.seconds > 1_600_000_000),
        other => panic!("unexpected {other:?}"),
    }
    assert_eq!(q.len(), 1);
}

#[test]
fn a_try_checks_the_deadline_before_it_takes_the_head() {
    let mut q = request_buffer_service_new(4);
    assert!(q.save_at(entry(1), at(0)).is_ok());
    let timeout = Duration::from_millis(100);
    let e = q.try_get(&timeout, 2, Some(Duration::from_millis(150))).unwrap_err();
    assert_eq!(e.code(), Code::DeadlineExceeded);
    assert_eq!(e.message(), "timeout. elapsed=150ms, tried: 2");
    assert_eq!(q.len(), 1);
    let e = q.try_get(&timeout, 2, None).unwrap_err();
    assert_eq!(e, Status::internal("CLOCK BROKEN"));
    assert_eq!(q.len(), 1);
    assert_eq!(q.try_get(&timeout, 2, Some(Duration::from_millis(50))), Ok(entry(1)));
    let e = q.try_get(&timeout, 3, Some(Duration::from_millis(60))).unwrap_err();
    assert_eq!(e.code(), Code::NotFound);
}

#[test]
fn a_loaded_entry_is_shown_with_its_reply_identifier_and_times() {
    assert_eq!(
        LoadResponse::from(entry(4)),
        LoadResponse {
            req: save_request(4).req,
            reply_id: Some(WireUuid { hi: 2, lo: 4 }),
            received: Some(at(4)),
            saved: Some(at(1_004)),
        }
    );
}

#[test]
fn the_service_saves_a_complete_request() {
    let mut q: BufSvcSt = request_buffer_service_new(0);
    let r: SaveResponse = ReqBufferService::save(&mut q, save_request(1)).unwrap();
    assert!(r.saved.unwrap().seconds > 1_600_000_000);
    assert_eq!(q.len(), 1);
    assert_eq!(ReqBufferService::save(&mut q, save_request(2)), Err(too_many(1)));
    let mut incomplete = save_request(3);
    incomplete.req = None;
    let e = ReqBufferService::save(&mut q, incomplete).unwrap_err();
    assert_eq!(e.code(), Code::InvalidArgument);
    assert_eq!(q.len(), 1);
    let got = q.pop().unwrap();
    assert_eq!(got.as_saved(), r.saved.unwrap());
    assert_eq!(got.into_req(), SaveReq::try_from(save_request(1)).unwrap());
}

#[test]
fn load_on_an_empty_queue_yields_nothing_after_three_tries() {
    let mut q = request_buffer_service_new(16);
    let mut stream = q.load(load_request(3)).unwrap();
    assert_eq!(q.load_next(&mut stream, Pulse::Start), Action::Wait);
    for (tick, expected) in [(0, Action::Wait), (10, Action::Wait), (20, Action::Close)] {
        let elapsed = Some(Duration::from_millis(tick));
        assert_eq!(q.load_next(&mut stream, Pulse::Tick(elapsed)), expected);
    }
    assert_eq!(stream.tried(), 3);
    assert_eq!(q.load_next(&mut stream, Pulse::Start), Action::Close);
}

#[test]
fn load_hands_out_the_head_when_there_is_one() {
    let mut q = request_buffer_service_new(16);
    let mut stream = q.load(load_request(3)).unwrap();
    assert_eq!(q.load_next(&mut stream, Pulse::Start), Action::Wait);
    assert_eq!(q.load_next(&mut stream, Pulse::Tick(Some(Duration::from_millis(0)))), Action::Wait);
    assert!(q.save_at(entry(1), at(0)).is_ok());
    assert!(q.save_at(entry(2), at(0)).is_ok());
    assert_eq!(
        q.load_next(&mut stream, Pulse::Tick(Some(Duration::from_millis(10)))),
        Action::Emit(Ok(LoadResponse::from(entry(1))))
    );
    assert_eq!(q.len(), 1);
}

#[test]
fn load_fails_when_the_clock_is_past_the_timeout() {
    let mut q = request_buffer_service_new(16);
    assert!(q.save_at(entry(1), at(0)).is_ok());
    let mut stream = q.load(load_request(3)).unwrap();
    match q.load_next(&mut stream, Pulse::Tick(Some(Duration::from_millis(101)))) {
        Action::Emit(Err(e)) => {
            assert_eq!(e.code(), Code::DeadlineExceeded);
            assert_eq!(e.message(), "timeout. elapsed=101ms, tried: 0");
        }
        other => panic!("unexpected {other:?}"),
    }
    assert_eq!(q.len(), 1);
}

#[test]
fn load_without_tries_closes_at_once() {
    let mut q = request_buffer_service_new(16);
    assert!(q.save_at(entry(1), at(0)).is_ok());
    let mut stream = q.load(load_request(0)).unwrap();
    assert_eq!(q.load_next(&mut stream, Pulse::Start), Action::Close);
    assert_eq!(q.len(), 1);
}

#[test]
fn load_wants_a_complete_request() {
    let q = request_buffer_service_new(16);
    let e = q.load(LoadRequest { request_id: None, retry: None }).unwrap_err();
    assert_eq!(e, Status::invalid_argument("request id missing"));
    let e = q
        .load(LoadRequest { request_id: Some(WireUuid { hi: 0, lo: 1 }), retry: None })
        .unwrap_err();
    assert_eq!(
        e,
        Status::invalid_argument("retry missing. request id: 00000000000000000000000000000001")
    );
}
