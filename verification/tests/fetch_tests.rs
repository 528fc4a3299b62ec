use tgbot_downloader::event::DownloadRequest;
use tgbot_downloader::fetch::{DownloadResult, FailureReason, FetchEvent, FetchStage};

fn request(name: Option<&str>) -> DownloadRequest {
    DownloadRequest {
        remote_ref: "remote-1".to_string(),
        suggested_name: name.map(|n| n.to_string()),
        conversation_id: "123".to_string(),
    }
}

fn resolved(canonical_id: &str) -> FetchEvent {
    FetchEvent::Resolved { handle: "documents/file_7.mp4".to_string(), canonical_id: canonical_id.to_string() }
}

fn failure(reason: FailureReason) -> FetchStage {
    FetchStage::Done { result: DownloadResult::Failure { reason } }
}

fn every_event() -> Vec<FetchEvent> {
    vec![
        resolved("id"),
        FetchEvent::ResolveFailed { detail: "gone".to_string() },
        FetchEvent::Created,
        FetchEvent::AlreadyExists,
        FetchEvent::CreateFailed { detail: "denied".to_string() },
        FetchEvent::Streamed { byte_count: 5 },
        FetchEvent::StreamFailed { detail: "reset".to_string() },
        FetchEvent::Discarded,
    ]
}

fn streaming() -> FetchStage {
    FetchStage::Stream { handle: "h".to_string(), path: "/srv/media/a.mp4".to_string() }
}

fn creating() -> FetchStage {
    FetchStage::Create { handle: "h".to_string(), path: "/srv/media/a.mp4".to_string() }
}

#[test]
fn start_asks_for_the_reference_to_be_resolved() {
    let stage = FetchStage::start(request(Some("a.mp4")), "/srv/media");
    assert_eq!(
        stage,
        FetchStage::Resolve { request: request(Some("a.mp4")), destination_dir: "/srv/media".to_string() }
    );
    assert!(!stage.is_done());
}

#[test]
fn a_download_runs_through_to_success() {
    let stage = FetchStage::start(request(Some("a.mp4")), "/srv/media");
    let stage = stage.advance(resolved("AgADBAAD"));
    assert_eq!(
        stage,
        FetchStage::Create {
            handle: "documents/file_7.mp4".to_string(),
            path: "/srv/media/a.mp4".to_string()
        }
    );
    let stage = stage.advance(FetchEvent::Created);
    assert_eq!(
        stage,
        FetchStage::Stream {
            handle: "documents/file_7.mp4".to_string(),
            path: "/srv/media/a.mp4".to_string()
        }
    );
    let stage = stage.advance(FetchEvent::Streamed { byte_count: 1_048_576 });
    assert!(stage.is_done());
    assert_eq!(
        stage.into_result(),
        Some(DownloadResult::Success { path: "/srv/media/a.mp4".to_string(), byte_count: 1_048_576 })
    );
}

#[test]
fn the_byte_count_is_the_one_reported() {
    for n in [0u64, 1, 10, 4_294_967_296, u64::MAX] {
        let done = streaming().advance(FetchEvent::Streamed { byte_count: n });
        assert_eq!(
            done,
            FetchStage::Done {
                result: DownloadResult::Success { path: "/srv/media/a.mp4".to_string(), byte_count: n }
            }
        );
    }
}

#[test]
fn without_a_name_the_file_is_named_after_the_canonical_id() {
    let stage = FetchStage::start(request(None), ".").advance(resolved("AgADBAAD"));
    assert_eq!(
        stage,
        FetchStage::Create { handle: "documents/file_7.mp4".to_string(), path: "./AgADBAAD".to_string() }
    );
}

#[test]
fn with_an_empty_name_the_file_is_named_after_the_canonical_id() {
    let stage = FetchStage::start(request(Some("")), ".").advance(resolved("AgADBAAD"));
    assert_eq!(
        stage,
        FetchStage::Create { handle: "documents/file_7.mp4".to_string(), path: "./AgADBAAD".to_string() }
    );
}

#[test]
fn a_traversing_name_stays_in_the_directory() {
    let stage =
        FetchStage::start(request(Some("../../etc/passwd")), "/srv/media").advance(resolved("id"));
    assert_eq!(
        stage,
        FetchStage::Create {
            handle: "documents/file_7.mp4".to_string(),
            path: "/srv/media/....etcpasswd".to_string()
        }
    );
}

#[test]
fn resolution_failure_ends_the_download() {
    let stage = FetchStage::start(request(None), ".")
        .advance(FetchEvent::ResolveFailed { detail: "file reference expired".to_string() });
    assert_eq!(
        stage,
        failure(FailureReason::ResolutionFailed { detail: "file reference expired".to_string() })
    );
}

#[test]
fn an_unusable_name_ends_the_download() {
    let stage = FetchStage::start(request(Some("..")), ".").advance(resolved(""));
    assert_eq!(stage, failure(FailureReason::UnusableName));
}

#[test]
fn an_existing_file_is_not_overwritten() {
    let stage = creating().advance(FetchEvent::AlreadyExists);
    assert_eq!(
        stage,
        failure(FailureReason::DestinationExists { path: "/srv/media/a.mp4".to_string() })
    );
}

#[test]
fn a_file_that_cannot_be_created_ends_the_download() {
    let stage = creating().advance(FetchEvent::CreateFailed { detail: "permission denied".to_string() });
    assert_eq!(stage, failure(FailureReason::IoFailure { detail: "permission denied".to_string() }));
}

#[test]
fn a_broken_stream_discards_the_partial_file() {
    let stage = streaming().advance(FetchEvent::StreamFailed { detail: "disk full".to_string() });
    assert_eq!(
        stage,
        FetchStage::Discard {
            path: "/srv/media/a.mp4".to_string(),
            reason: FailureReason::IoFailure { detail: "disk full".to_string() }
        }
    );
    assert!(!stage.is_done());
    let stage = stage.advance(FetchEvent::Discarded);
    assert_eq!(stage, failure(FailureReason::IoFailure { detail: "disk full".to_string() }));
}

#[test]
fn discarding_ends_whatever_is_reported() {
    for event in every_event() {
        let stage = FetchStage::Discard {
            path: "p".to_string(),
            reason: FailureReason::IoFailure { detail: "d".to_string() },
        };
        assert_eq!(
            stage.advance(event),
            failure(FailureReason::IoFailure { detail: "d".to_string() })
        );
    }
}

#[test]
fn an_unexpected_report_while_resolving_fails() {
    for event in every_event() {
        if matches!(event, FetchEvent::Resolved { .. } | FetchEvent::ResolveFailed { .. }) {
            continue;
        }
        let stage = FetchStage::start(request(None), ".").advance(event);
        assert_eq!(stage, failure(FailureReason::UnexpectedEvent));
    }
}

#[test]
fn an_unexpected_report_while_creating_fails_and_removes_nothing() {
    for event in every_event() {
        if matches!(
            event,
            FetchEvent::Created | FetchEvent::AlreadyExists | FetchEvent::CreateFailed { .. }
        ) {
            continue;
        }
        assert_eq!(creating().advance(event), failure(FailureReason::UnexpectedEvent));
    }
}

#[test]
fn an_unexpected_report_while_streaming_discards() {
    for event in every_event() {
        if matches!(event, FetchEvent::Streamed { .. } | FetchEvent::StreamFailed { .. }) {
            continue;
        }
        assert_eq!(
            streaming().advance(event),
            FetchStage::Discard {
                path: "/srv/media/a.mp4".to_string(),
                reason: FailureReason::UnexpectedEvent
            }
        );
    }
}

#[test]
fn a_result_is_final() {
    for event in every_event() {
        let done = FetchStage::Done {
            result: DownloadResult::Success { path: "p".to_string(), byte_count: 3 },
        };
        assert_eq!(
            done.advance(event),
            FetchStage::Done { result: DownloadResult::Success { path: "p".to_string(), byte_count: 3 } }
        );
    }
    for event in every_event() {
        assert_eq!(
            failure(FailureReason::UnusableName).advance(event),
            failure(FailureReason::UnusableName)
        );
    }
}

#[test]
fn four_reports_end_every_download() {
    for a in every_event() {
        for b in every_event() {
            for c in every_event() {
                for d in every_event() {
                    let stage = FetchStage::start(request(Some("a")), "dir")
                        .advance(a.clone())
                        .advance(b.clone())
                        .advance(c.clone())
                        .advance(d.clone());
                    assert!(stage.is_done());
                }
            }
        }
    }
}

#[test]
fn only_a_full_stream_succeeds() {
    for event in every_event() {
        let streamed = matches!(event, FetchEvent::Streamed { .. });
        let next = streaming().advance(event);
        let succeeded = matches!(next, FetchStage::Done { result: DownloadResult::Success { .. } });
        assert_eq!(succeeded, streamed);
    }
    for event in every_event() {
        let next = creating().advance(event);
        assert!(!matches!(next, FetchStage::Done { result: DownloadResult::Success { .. } }));
    }
    for event in every_event() {
        let next = FetchStage::start(request(None), ".").advance(event);
        assert!(!matches!(next, FetchStage::Done { result: DownloadResult::Success { .. } }));
    }
}

#[test]
fn into_result_is_none_before_the_end() {
    assert_eq!(FetchStage::start(request(None), ".").into_result(), None);
    assert_eq!(creating().into_result(), None);
    assert_eq!(streaming().into_result(), None);
}
