use rs_perf_test_helper::buffer::res::btree::svc::res_buffer_service_new;
use rs_perf_test_helper::buffer::res::btree::svc::BufSvcSt as Store;
use rs_perf_test_helper::buffer::vecdeque::svc::request_buffer_service_new;
use rs_perf_test_helper::buffer::vecdeque::svc::BufSvcSt as Queue;
use rs_perf_test_helper::convert::buffer::svc::Buffered;
use rs_perf_test_helper::convert::svc::ConvService;
use rs_perf_test_helper::indirect::req::get::svc::Buffered as Forwarder;
use rs_perf_test_helper::poll::{Action, Pulse};
use rs_perf_test_helper::rpc::common::{Duration as WireDuration, Retry as WireRetry, Uuid as WireUuid};
use rs_perf_test_helper::rpc::conv_req::{GetRequest as PendingRequest, GetResponse as Pending};
use rs_perf_test_helper::rpc::conv_svc::{ConvertRequest, ConvertResponse};
use rs_perf_test_helper::rpc::req_buf::{LoadRequest, LoadResponse, ReqBufferService, SaveRequest};
use rs_perf_test_helper::rpc::res_buf::{GetRequest, GetResponse, ResBufferService, SetRequest};
use rs_perf_test_helper::status::{Code, Status};
use rs_perf_test_helper::time::{Duration, Timestamp};
use rs_perf_test_helper::uuid::Uuid;

fn at(seconds: i64) -> Timestamp {
    Timestamp { seconds, nanos: 0 }
}

fn retry(retry_max: u64) -> WireRetry {
    WireRetry {
        retry_max,
        interval: Some(WireDuration { seconds: 0, nanos: 10_000_000 }),
        timeout: Some(WireDuration { seconds: 0, nanos: 100_000_000 }),
    }
}

fn payload() -> ConvertRequest {
    ConvertRequest { request_id: Some(WireUuid { hi: 1, lo: 1 }), seed: vec![4, 2] }
}

fn result() -> ConvertResponse {
    ConvertResponse { converted: Some(at(3)), generated: vec![8, 4] }
}

fn after_ms(ms: u64) -> Pulse {
    Pulse::Tick(Some(Duration::from_millis(ms)))
}

fn facade(queue_max: usize, retry_max: u64) -> Buffered<Queue, Store> {
    Buffered::new(
        request_buffer_service_new(queue_max),
        res_buffer_service_new(16),
        retry(retry_max),
    )
}

/// The worker: loads one pending request and stores `result()` under its
/// reply identifier.
fn work(b: &mut Buffered<Queue, Store>) -> Pending {
    let mut load = b.req_svc.load(LoadRequest {
        request_id: Some(WireUuid { hi: 5, lo: 5 }),
        retry: Some(retry(1)),
    })
    .unwrap();
    assert_eq!(b.req_svc.load_next(&mut load, Pulse::Start), Action::Wait);
    let lr: LoadResponse = match b.req_svc.load_next(&mut load, after_ms(0)) {
        Action::Emit(Ok(lr)) => lr,
        other => panic!("unexpected {other:?}"),
    };
    let set = SetRequest {
        request_id: Some(WireUuid { hi: 6, lo: 6 }),
        reply_id: lr.reply_id,
        res: Some(result()),
        received: lr.received,
        saved: lr.saved,
        converted: Some(at(3)),
    };
    assert!(ResBufferService::set(&mut b.res_svc, set).is_ok());
    Pending { req: lr.req, reply_id: lr.reply_id }
}

#[test]
fn a_conversion_succeeds_once_the_worker_has_stored_the_reply() {
    let mut b = facade(16, 5);
    let mut stream = b.convert(payload()).unwrap();
    assert_eq!(b.req_svc.len(), 1);
    assert_eq!(b.convert_next(&mut stream, Pulse::Start), Action::Wait);
    assert_eq!(b.convert_next(&mut stream, after_ms(0)), Action::Wait);
    assert_eq!(b.convert_next(&mut stream, after_ms(10)), Action::Wait);
    let pending = work(&mut b);
    assert_eq!(pending.req, Some(payload()));
    assert_eq!(pending.reply_id, Some(WireUuid::from(stream.reply_id)));
    assert_eq!(b.req_svc.len(), 0);
    assert_eq!(b.res_svc.len(), 1);
    assert_eq!(b.convert_next(&mut stream, after_ms(20)), Action::Emit(Ok(result())));
    assert_eq!(b.res_svc.len(), 0);
}

#[test]
fn a_conversion_without_a_reply_ends_with_an_internal_failure() {
    let mut b = facade(16, 3);
    let mut stream = b.convert(payload()).unwrap();
    assert_eq!(b.convert_next(&mut stream, Pulse::Start), Action::Wait);
    assert_eq!(b.convert_next(&mut stream, after_ms(0)), Action::Wait);
    assert_eq!(b.convert_next(&mut stream, after_ms(10)), Action::Wait);
    assert_eq!(
        b.convert_next(&mut stream, after_ms(20)),
        Action::Emit(Err(Status::internal("No reply from upstream")))
    );
}

#[test]
fn a_conversion_past_its_timeout_fails_with_deadline_exceeded() {
    let mut b = facade(16, 50);
    let mut stream = b.convert(payload()).unwrap();
    assert_eq!(b.convert_next(&mut stream, Pulse::Start), Action::Wait);
    assert_eq!(b.convert_next(&mut stream, after_ms(100)), Action::Wait);
    match b.convert_next(&mut stream, after_ms(101)) {
        Action::Emit(Err(e)) => {
            assert_eq!(e.code(), Code::DeadlineExceeded);
            assert_eq!(e.message(), "timeout. elapsed=101ms, tried: 1");
        }
        other => panic!("unexpected {other:?}"),
    }
}

#[test]
fn a_conversion_is_refused_where_the_queue_is_full() {
    let mut b = facade(0, 5);
    assert!(b.convert(payload()).is_ok());
    let e = b.convert(payload()).unwrap_err();
    assert_eq!(e, Status::new(Code::Unavailable, String::from("too many requests. size: 1")));
    assert_eq!(b.req_svc.len(), 1);
}

#[test]
fn each_conversion_draws_its_own_reply_identifier() {
    let mut b = facade(16, 5);
    let first = b.convert(payload()).unwrap();
    let second = b.convert(payload()).unwrap();
    assert_ne!(first.reply_id, second.reply_id);
    assert_eq!((first.reply_id.as_u128() >> 76) & 0xf, 4);
    let mut second = second;
    let mut first = first;
    work(&mut b);
    assert_eq!(b.convert_next(&mut second, after_ms(0)), Action::Wait);
    assert_eq!(b.convert_next(&mut first, after_ms(0)), Action::Emit(Ok(result())));
    work(&mut b);
    assert_eq!(b.convert_next(&mut second, after_ms(10)), Action::Emit(Ok(result())));
}

#[test]
fn the_caller_gets_the_response_of_the_single_item() {
    type B = Buffered<Queue, Store>;
    let full = GetResponse {
        res: Some(result()),
        received: None,
        saved: None,
        converted: None,
        set: None,
    };
    assert_eq!(B::reply(Some(Ok(full.clone()))), Ok(result()));
    let empty = GetResponse { res: None, ..full.clone() };
    assert_eq!(B::reply(Some(Ok(empty))), Err(Status::internal("empty response")));
    assert_eq!(B::reply(None), Err(Status::internal("No reply from upstream")));
    assert_eq!(
        B::reply(Some(Err(Status::deadline_exceeded("late")))),
        Err(Status::deadline_exceeded("late"))
    );
    assert_eq!(B::settle(Action::Wait), Action::Wait);
    assert_eq!(B::settle(Action::Try), Action::Try);
    assert_eq!(B::settle(Action::Emit(Ok(full))), Action::Emit(Ok(result())));
    assert_eq!(
        B::settle(Action::Close),
        Action::Emit(Err(Status::internal("No reply from upstream")))
    );
}

#[test]
fn the_requests_of_a_conversion_carry_every_field() {
    type B = Buffered<Queue, Store>;
    let s: SaveRequest = B::save_request(Uuid::new(1, 2), Uuid::new(3, 4), payload(), at(9));
    assert_eq!(
        s,
        SaveRequest {
            request_id: Some(WireUuid { hi: 1, lo: 2 }),
            reply_id: Some(WireUuid { hi: 3, lo: 4 }),
            req: Some(payload()),
            received: Some(at(9)),
        }
    );
    let g: GetRequest = B::get_request(Uuid::new(1, 2), Uuid::new(3, 4), retry(3));
    assert_eq!(
        g,
        GetRequest {
            request_id: Some(WireUuid { hi: 1, lo: 2 }),
            reply_id: Some(WireUuid { hi: 3, lo: 4 }),
            retry: Some(retry(3)),
        }
    );
}

#[test]
fn save_and_get_use_fresh_request_identifiers() {
    let mut b = facade(16, 5);
    let reply = Uuid::new(0, 77);
    assert!(b.save(at(1), payload(), reply).is_ok());
    assert!(b.save(at(1), payload(), reply).is_ok());
    let first = b.req_svc.pop().unwrap().into_req();
    let second = b.req_svc.pop().unwrap().into_req();
    assert_eq!(first.as_reply_id(), reply);
    assert_eq!(second.as_reply_id(), reply);
    assert_ne!(first.as_request_id(), second.as_request_id());
    assert_eq!(*first.as_received(), at(1));
    let stream = b.get(reply, retry(2)).unwrap();
    assert_eq!(stream.reply_id, reply);
    assert_eq!(stream.poller.tried(), 0);
}

#[test]
fn the_forwarder_shows_a_queued_request_as_pending() {
    let mut f: Forwarder<Queue> = Forwarder::new(request_buffer_service_new(4), retry(2));
    let mut stream = f
        .get(PendingRequest { request_id: Some(WireUuid { hi: 0, lo: 1 }) })
        .unwrap()
        .unwrap();
    assert_eq!(f.get_next(&mut stream, Pulse::Start), Action::Wait);
    assert_eq!(f.get_next(&mut stream, after_ms(0)), Action::Wait);
    let save = SaveRequest {
        request_id: Some(WireUuid { hi: 1, lo: 2 }),
        reply_id: Some(WireUuid { hi: 3, lo: 4 }),
        req: Some(payload()),
        received: Some(at(9)),
    };
    assert!(ReqBufferService::save(&mut f.req_svc, save).is_ok());
    assert_eq!(
        f.get_next(&mut stream, after_ms(10)),
        Action::Emit(Ok(Pending {
            req: Some(payload()),
            reply_id: Some(WireUuid { hi: 3, lo: 4 }),
        }))
    );
    assert_eq!(f.req_svc.len(), 0);
}

#[test]
fn the_forwarder_closes_its_stream_after_the_last_try() {
    let mut f: Forwarder<Queue> = Forwarder::new(request_buffer_service_new(4), retry(2));
    let mut stream = f
        .get(PendingRequest { request_id: Some(WireUuid { hi: 0, lo: 1 }) })
        .unwrap()
        .unwrap();
    assert_eq!(f.get_next(&mut stream, Pulse::Start), Action::Wait);
    assert_eq!(f.get_next(&mut stream, after_ms(0)), Action::Wait);
    assert_eq!(f.get_next(&mut stream, after_ms(10)), Action::Close);
    match f.get_next(&mut stream, after_ms(500)) {
        Action::Emit(Err(e)) => assert_eq!(e.code(), Code::DeadlineExceeded),
        other => panic!("unexpected {other:?}"),
    }
}

#[test]
fn the_forwarder_wants_a_request_identifier() {
    let f: Forwarder<Queue> = Forwarder::new(request_buffer_service_new(4), retry(2));
    let e = f.get(PendingRequest { request_id: None }).unwrap_err();
    assert_eq!(e, Status::invalid_argument("request id missing"));
}

#[test]
fn the_forwarder_maps_items_and_passes_failures_on() {
    type F = Forwarder<Queue>;
    let lr = LoadResponse {
        req: Some(payload()),
        reply_id: Some(WireUuid { hi: 3, lo: 4 }),
        received: Some(at(1)),
        saved: Some(at(2)),
    };
    assert_eq!(
        F::forward(Ok(lr)),
        Ok(Pending { req: Some(payload()), reply_id: Some(WireUuid { hi: 3, lo: 4 }) })
    );
    assert_eq!(F::forward(Err(Status::internal("lost"))), Err(Status::internal("lost")));
    let q = request_buffer_service_new(4);
    assert!(F::load_retry(&q, Uuid::new(0, 1), retry(3)).is_ok());
    let e = F::load(&q, LoadRequest { request_id: None, retry: None }).unwrap_err();
    assert_eq!(e.code(), Code::InvalidArgument);
}

/// A conversion service that reads an eight-byte seed as a number and
/// writes a number as eight bytes.
struct Doubling;

impl ConvService for Doubling {
    type Input = u64;
    type Output = u64;

    fn req2i(&self, req: ConvertRequest) -> Result<u64, Status> {
        let bytes: [u8; 8] = req
            .seed
            .try_into()
            .map_err(|_| Status::invalid_argument("invalid seed"))?;
        Ok(u64::from_be_bytes(bytes))
    }

    fn o2res(&self, o: u64) -> Result<ConvertResponse, Status> {
        Ok(ConvertResponse { converted: Some(at(3)), generated: o.to_be_bytes().to_vec() })
    }
}

#[test]
fn a_conversion_service_answers_with_what_its_steps_give() {
    let svc = Doubling;
    let req = ConvertRequest { request_id: None, seed: 21u64.to_be_bytes().to_vec() };
    let input = svc.req2i(req).unwrap();
    assert_eq!(
        svc.answer(Ok(input * 2)),
        Ok(ConvertResponse { converted: Some(at(3)), generated: 42u64.to_be_bytes().to_vec() })
    );
    assert_eq!(svc.answer(Err(Status::internal("lost"))), Err(Status::internal("lost")));
    let e = svc.req2i(payload()).unwrap_err();
    assert_eq!(e, Status::invalid_argument("invalid seed"));
}
