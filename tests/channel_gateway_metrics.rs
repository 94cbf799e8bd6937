use std::time::Duration;

use shielder_scheduler::api::RelayerRpcUrl;
use shielder_scheduler::channel::{decode_frame, encode_frame, Decoded, FrameError, MAX_FRAME_LEN};
use shielder_scheduler::gateway::{settle_gateway_call, ChannelError, GatewayError};
use shielder_scheduler::metrics::{FutureHistogramLayer, FutureTimingMetric, Timings, TrackedSpans};
use shielder_scheduler::protocol::Response;

#[test]
fn frame_round_trip() {
    let body = b"{\"Ping\":null}".to_vec();
    let mut frame = encode_frame(&body).unwrap();
    assert_eq!(&frame[..4], &[0, 0, 0, body.len() as u8]);
    frame.extend_from_slice(&[9, 9]);
    match decode_frame(&frame).unwrap() {
        Decoded::Frame { body: b, consumed } => {
            assert_eq!(b, body);
            assert_eq!(consumed, 4 + body.len());
        }
        Decoded::Incomplete => panic!("whole frame expected"),
    }
}

#[test]
fn partial_and_oversized_frames() {
    assert!(matches!(decode_frame(&[0, 0]), Ok(Decoded::Incomplete)));
    assert!(matches!(decode_frame(&[0, 0, 0, 3, 1, 2]), Ok(Decoded::Incomplete)));
    assert!(matches!(decode_frame(&[0, 0x80, 0, 1]), Err(FrameError::TooLong)));
    assert!(matches!(decode_frame(&[0, 0, 0, 0]), Ok(Decoded::Frame { consumed: 4, .. })));
    let big = vec![0u8; MAX_FRAME_LEN + 1];
    assert_eq!(encode_frame(&big), Err(FrameError::TooLong));
    let header = encode_frame(&vec![0u8; 0x01_02_03]).unwrap();
    assert_eq!(&header[..4], &[0, 1, 2, 3]);
}

#[test]
fn gateway_forwards_and_classifies() {
    let ok = settle_gateway_call(Ok(Ok(Response::Pong)));
    assert!(matches!(ok, Ok(Response::Pong)));
    let ch = settle_gateway_call(Ok(Err(ChannelError::Transport("reset".to_string()))));
    assert!(matches!(ch, Err(GatewayError::Channel(ChannelError::Transport(_)))));
    assert_eq!(ch.unwrap_err().http_status(), 500);
    let run = settle_gateway_call(Err(tokio_task_pool::Error::RunTimeout(None)));
    assert!(matches!(run, Err(GatewayError::Timeout)));
    assert_eq!(GatewayError::Overloaded.http_status(), 503);
    assert_eq!(GatewayError::Timeout.http_status(), 503);
}

#[test]
fn gateway_backpressure() {
    let rt = tokio::runtime::Builder::new_multi_thread().enable_all().build().unwrap();
    rt.block_on(async {
        let capacity = 2;
        let pool = tokio_task_pool::Pool::bounded(capacity)
            .with_spawn_timeout(Duration::from_millis(100))
            .with_run_timeout(Duration::from_secs(5));
        let mut held = Vec::new();
        for _ in 0..capacity {
            let h = pool
                .spawn(async {
                    tokio::time::sleep(Duration::from_millis(500)).await;
                    Ok::<Response, ChannelError>(Response::Pong)
                })
                .await
                .expect("a free slot");
            held.push(h);
        }
        let extra = pool
            .spawn(async { Ok::<Response, ChannelError>(Response::Pong) })
            .await
            .map(|_| Ok(Response::Pong));
        let settled = settle_gateway_call(extra);
        assert!(matches!(settled, Err(GatewayError::Overloaded)));
        for h in held {
            assert!(h.await.unwrap().is_ok());
        }
    });
}

#[test]
fn tracked_spans() {
    let all = FutureHistogramLayer::with_all_spans();
    assert!(all.is_span_tracked("anything"));
    let some = FutureHistogramLayer::with_specific_spans(&["health", "generate_proof"]);
    assert!(some.is_span_tracked("health"));
    assert!(!some.is_span_tracked("healt"));
    assert!(!some.is_span_tracked("tee_public_key"));
    let spans = TrackedSpans::from_names(&[]);
    assert!(!spans.contains("health"));
    let layer = FutureHistogramLayer::new(TrackedSpans::All);
    assert!(layer.tracked_spans.contains(""));
}

#[test]
fn timing_metric_names() {
    assert_eq!(FutureTimingMetric::by_name("health"), Some(FutureTimingMetric::Health));
    assert_eq!(
        FutureTimingMetric::by_name("Building_VSOCK_connection"),
        Some(FutureTimingMetric::BuildingVsocksConnection)
    );
    assert_eq!(FutureTimingMetric::by_name("Health"), None);
    assert_eq!(FutureTimingMetric::SendingTeeRequest.name(), "Sending_TEE_request");
    assert_eq!(FutureTimingMetric::TeePublicKey.busy_histogram(), "tee_public_key_busy");
    assert_eq!(FutureTimingMetric::GenerateProof.idle_histogram_name(), "generate_proof_idle");
}

#[test]
fn busy_and_idle_accounting() {
    let mut t = Timings::new(100);
    t.enter(130);
    t.exit(200);
    t.enter(210);
    t.exit(215);
    assert_eq!((t.idle, t.busy), (40, 75));
    assert_eq!(t.close(300), (75, 125));
    let mut s = Timings { idle: u64::MAX - 1, busy: 0, last: 0 };
    s.enter(10);
    assert_eq!(s.idle, u64::MAX);
}

#[test]
fn relayer_urls() {
    let u = RelayerRpcUrl::new("http://relayer:4141".to_string());
    assert_eq!(u.healthcheck_url(), "http://relayer:4141/health");
    assert_eq!(u.relay_url(), "http://relayer:4141/relay");
    assert_eq!(u.fees_url(), "http://relayer:4141/quote_fees");
    assert_eq!(u.fee_address_url(), "http://relayer:4141/fee_address");
}
