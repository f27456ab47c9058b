use rtsp_bridge::assembly::build_pipeline;
use rtsp_bridge::config::{resolve, Commands, KvsConfig, RtspConfig};
use rtsp_bridge::error::BridgeError;
use rtsp_bridge::graph::{Link, PipelineGraph, PipelineState};
use rtsp_bridge::lifecycle::{Controller, LogLevel, LoopAction, Notification, Phase, Report, CLEAN_EXIT};
use rtsp_bridge::negotiation::{decide, handle_pad_added, FormatDescriptor, PadDecision, PadOutcome};

fn rtp(media: Option<&str>) -> FormatDescriptor {
    FormatDescriptor { media_type: "application/x-rtp".to_string(), media: media.map(|m| m.to_string()) }
}

fn report(source: Option<&str>, message: &str, debug: Option<&str>) -> Report {
    Report {
        source: source.map(|s| s.to_string()),
        message: message.to_string(),
        debug: debug.map(|d| d.to_string()),
    }
}

fn playback_graph() -> PipelineGraph {
    build_pipeline(&Commands::PlayBack {
        rtsp_config: RtspConfig { url: Some("rtsp://cam".to_string()), user_id: None, password: None },
    })
    .unwrap()
}

fn links_into(g: &PipelineGraph, consumer: usize) -> usize {
    g.links.iter().filter(|l| l.consumer == consumer).count()
}

#[test]
fn decide_covers_each_branch() {
    assert_eq!(decide(true, &rtp(Some("video"))), PadDecision::AlreadyLinked);
    assert_eq!(decide(true, &rtp(Some("audio"))), PadDecision::AlreadyLinked);
    assert_eq!(decide(false, &rtp(Some("video"))), PadDecision::Link);
    assert_eq!(decide(false, &rtp(Some("audio"))), PadDecision::Ignore);
    assert_eq!(decide(false, &rtp(Some("Video"))), PadDecision::Ignore);
    assert_eq!(decide(false, &rtp(None)), PadDecision::Ignore);
    let other = FormatDescriptor { media_type: "application/x-rtcp".to_string(), media: Some("video".to_string()) };
    assert_eq!(decide(false, &other), PadDecision::Ignore);
    assert!(rtp(Some("video")).is_rtp_video());
    assert!(!other.is_rtp_video());
}

#[test]
fn pad_added_twice_links_once() {
    let mut g = playback_graph();
    let first = handle_pad_added(&mut g, "source", "rtph264depay", &rtp(Some("video")));
    assert_eq!(first, PadOutcome::Linked);
    assert_eq!(first.log_level(), Some(LogLevel::Info));
    let second = handle_pad_added(&mut g, "source", "rtph264depay", &rtp(Some("video")));
    assert_eq!(second, PadOutcome::AlreadyLinked);
    assert_eq!(second.log_level(), Some(LogLevel::Info));
    assert_eq!(links_into(&g, 1), 1);
    assert_eq!(g.links.len(), 5);
    assert_eq!(g.links[4], Link { producer: 0, consumer: 1 });
}

#[test]
fn audio_pad_is_ignored_silently() {
    let mut g = playback_graph();
    let r = handle_pad_added(&mut g, "source", "rtph264depay", &rtp(Some("audio")));
    assert_eq!(r, PadOutcome::Ignored);
    assert_eq!(r.log_level(), None);
    assert_eq!(g.links.len(), 4);
    assert_eq!(links_into(&g, 1), 0);
}

#[test]
fn video_pad_link_failure_is_not_fatal() {
    let mut g = PipelineGraph::new("p");
    g.add(rtsp_bridge::stage::Stage::create("rtspsrc", "source").unwrap()).unwrap();
    let r = handle_pad_added(&mut g, "source", "rtph264depay", &rtp(Some("video")));
    assert_eq!(
        r,
        PadOutcome::LinkFailed(BridgeError::Unlinkable {
            producer: "source".to_string(),
            consumer: "rtph264depay".to_string()
        })
    );
    assert_eq!(r.log_level(), Some(LogLevel::Error));
    assert!(g.links.is_empty());
    let mut c = Controller::new();
    let step = c.on_notification(Notification::Info(report(Some("/p/source"), "still running", None)));
    assert_eq!(step.action, LoopAction::Continue);
    assert_eq!(c.phase, Phase::Running);
}

#[test]
fn info_and_warning_keep_running() {
    let mut c = Controller::new();
    let s = c.on_notification(Notification::Info(report(Some("/p/source"), "hello", Some("dbg"))));
    assert_eq!(s.action, LoopAction::Continue);
    let log = s.log.unwrap();
    assert_eq!(log.level, LogLevel::Info);
    assert_eq!(log.context, Some("/p/source".to_string()));
    assert_eq!(log.message, "hello");
    assert_eq!(log.detail, Some("dbg".to_string()));
    let s = c.on_notification(Notification::Warning(report(None, "careful", None)));
    assert_eq!(s.action, LoopAction::Continue);
    let log = s.log.unwrap();
    assert_eq!(log.level, LogLevel::Warn);
    assert_eq!(log.context, None);
    let s = c.on_notification(Notification::Other);
    assert_eq!(s.action, LoopAction::Continue);
    assert!(s.log.is_none());
    assert_eq!(c.phase, Phase::Running);
}

#[test]
fn end_of_stream_terminates() {
    let mut c = Controller::new();
    let s = c.on_notification(Notification::EndOfStream);
    assert_eq!(s.action, LoopAction::Terminate);
    assert_eq!(c.phase, Phase::Terminating);
    assert_eq!(s.log.unwrap().message, "Received end of stream");
}

#[test]
fn stream_closure_then_failed_cleanup() {
    let mut c = Controller::new();
    c.on_stream_closed();
    assert_eq!(c.phase, Phase::Terminating);
    let (code, log) = c.finish(false);
    assert_eq!(code, CLEAN_EXIT);
    assert_eq!(log.unwrap().level, LogLevel::Error);
    assert_eq!(c.phase, Phase::Stopped);
}

#[test]
fn scenario_playback_to_end_of_stream() {
    let mut g = playback_graph();
    assert_eq!(g.set_state(PipelineState::Playing, true), Ok(()));
    let mut c = Controller::new();
    let pad = handle_pad_added(&mut g, "source", "rtph264depay", &rtp(Some("video")));
    assert_eq!(pad, PadOutcome::Linked);
    let step = c.on_notification(Notification::EndOfStream);
    assert_eq!(step.action, LoopAction::Terminate);
    assert_eq!(g.set_state(PipelineState::Null, true), Ok(()));
    let (code, log) = c.finish(true);
    assert!(log.is_none());
    assert_eq!(c.phase, Phase::Stopped);
    assert_eq!(code, 0);
    assert_eq!(g.state, PipelineState::Null);
}

#[test]
fn scenario_ingestion_without_stream_name() {
    let cmd = Commands::Kvs {
        kvs_config: KvsConfig {
            aws_access_key_id: None,
            aws_secret_key: None,
            stream_name: resolve(None, None),
            aws_region: None,
        },
        rtsp_config: RtspConfig { url: Some("rtsp://cam".to_string()), user_id: None, password: None },
    };
    let r = build_pipeline(&cmd);
    assert_eq!(r.unwrap_err(), BridgeError::MissingRequiredParameter { name: "stream-name".to_string() });
}

#[test]
fn scenario_runtime_error_from_source() {
    let mut g = playback_graph();
    g.set_state(PipelineState::Playing, true).unwrap();
    let mut c = Controller::new();
    let step = c.on_notification(Notification::Error(report(Some("source"), "Could not open resource", Some("detail"))));
    assert_eq!(step.action, LoopAction::Terminate);
    let log = step.log.unwrap();
    assert_eq!(log.level, LogLevel::Error);
    assert_eq!(log.context, Some("source".to_string()));
    assert_eq!(log.message, "Could not open resource");
    assert_eq!(c.phase, Phase::Terminating);
    g.set_state(PipelineState::Null, true).unwrap();
    let (code, _) = c.finish(true);
    assert_eq!(code, CLEAN_EXIT);
    assert_eq!(c.phase, Phase::Stopped);
}
