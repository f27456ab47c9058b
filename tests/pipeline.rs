use rtsp_bridge::assembly::{build_pipeline, rtspsrc, setup_kvssink, setup_playback};
use rtsp_bridge::config::{resolve, resolve_required, Commands, KvsConfig, RtspConfig};
use rtsp_bridge::error::BridgeError;
use rtsp_bridge::graph::{Link, PipelineGraph, PipelineState};
use rtsp_bridge::stage::{Stage, StageKind};

fn stage(kind: &str, name: &str) -> Stage {
    Stage::create(kind, name).unwrap()
}

fn names(g: &PipelineGraph) -> Vec<String> {
    g.stages.iter().map(|s| s.name.clone()).collect()
}

fn strings(v: &[&str]) -> Vec<String> {
    v.iter().map(|s| s.to_string()).collect()
}

fn no_rtsp() -> RtspConfig {
    RtspConfig { url: None, user_id: None, password: None }
}

#[test]
fn create_unknown_type_fails() {
    for t in ["fakesrc", "", "RTSPSRC", "kvssink2"] {
        let r = Stage::create(t, "x");
        assert_eq!(r.unwrap_err(), BridgeError::StageCreation { factory_name: t.to_string() });
    }
}

#[test]
fn create_known_types() {
    let known = [
        ("rtspsrc", StageKind::RtspSource),
        ("rtph264depay", StageKind::RtpH264Depay),
        ("h264parse", StageKind::H264Parse),
        ("avdec_h264", StageKind::AvDecH264),
        ("videoconvert", StageKind::VideoConvert),
        ("autovideosink", StageKind::AutoVideoSink),
        ("kvssink", StageKind::KvsSink),
    ];
    for (t, k) in known {
        let s = Stage::create(t, "inst").unwrap();
        assert_eq!(s.kind, k);
        assert_eq!(s.name, "inst");
        assert!(s.props.is_empty());
        assert_eq!(k.factory_name(), t);
        assert_eq!(StageKind::from_factory_name(t), Some(k));
    }
}

#[test]
fn failed_create_leaves_graph_unchanged() {
    let mut g = PipelineGraph::new("p");
    g.add(stage("h264parse", "parse")).unwrap();
    assert!(Stage::create("nosuchelement", "other").is_err());
    assert_eq!(names(&g), strings(&["parse"]));
    assert!(g.links.is_empty());
}

#[test]
fn set_property_known_and_unknown() {
    let mut s = stage("rtspsrc", "source");
    assert_eq!(s.set_property("location", "rtsp://cam/1"), Ok(()));
    assert_eq!(s.property("location"), Some("rtsp://cam/1".to_string()));
    assert_eq!(s.set_property("location", "rtsp://cam/2"), Ok(()));
    assert_eq!(s.property("location"), Some("rtsp://cam/2".to_string()));
    assert_eq!(s.property("user-id"), None);
    assert_eq!(
        s.set_property("bitrate", "5"),
        Err(BridgeError::Property { stage: "source".to_string(), key: "bitrate".to_string() })
    );
    let mut p = stage("h264parse", "parse");
    assert!(p.set_property("location", "x").is_err());
    assert!(p.props.is_empty());
}

#[test]
fn add_rejects_duplicate_name() {
    let mut g = PipelineGraph::new("p");
    assert_eq!(g.add(stage("h264parse", "a")), Ok(()));
    assert_eq!(g.add(stage("kvssink", "a")), Err(BridgeError::DuplicateStage { name: "a".to_string() }));
    assert_eq!(g.stages.len(), 1);
    assert_eq!(g.stages[0].kind, StageKind::H264Parse);
}

#[test]
fn add_many_is_atomic() {
    let mut g = PipelineGraph::new("p");
    g.add(stage("h264parse", "a")).unwrap();
    let batch = vec![stage("rtspsrc", "b"), stage("rtph264depay", "c"), stage("kvssink", "a"), stage("videoconvert", "d")];
    assert_eq!(g.add_many(batch), Err(BridgeError::DuplicateStage { name: "a".to_string() }));
    assert_eq!(names(&g), strings(&["a"]));
}

#[test]
fn add_many_reports_clash_within_batch() {
    let mut g = PipelineGraph::new("p");
    let batch = vec![stage("rtspsrc", "x"), stage("h264parse", "y"), stage("kvssink", "y"), stage("kvssink", "x")];
    assert_eq!(g.add_many(batch), Err(BridgeError::DuplicateStage { name: "y".to_string() }));
    assert!(g.stages.is_empty());
}

#[test]
fn add_many_adds_in_order() {
    let mut g = PipelineGraph::new("p");
    g.add_many(vec![stage("rtspsrc", "s"), stage("rtph264depay", "d")]).unwrap();
    g.add_many(vec![]).unwrap();
    assert_eq!(names(&g), strings(&["s", "d"]));
    assert_eq!(g.find("d"), Some(1));
    assert_eq!(g.find("zz"), None);
}

#[test]
fn link_checks_membership_consumer_and_caps() {
    let mut g = PipelineGraph::new("p");
    g.add_many(vec![
        stage("rtspsrc", "src"),
        stage("rtph264depay", "depay"),
        stage("h264parse", "parse"),
        stage("autovideosink", "sink"),
    ])
    .unwrap();
    let unlinkable = |p: &str, c: &str| BridgeError::Unlinkable { producer: p.to_string(), consumer: c.to_string() };
    assert_eq!(g.link("src", "missing"), Err(unlinkable("src", "missing")));
    assert_eq!(g.link("missing", "depay"), Err(unlinkable("missing", "depay")));
    assert_eq!(g.link("parse", "sink"), Err(unlinkable("parse", "sink")));
    assert_eq!(g.link("sink", "parse"), Err(unlinkable("sink", "parse")));
    assert_eq!(g.link("src", "depay"), Ok(()));
    assert_eq!(g.links, vec![Link { producer: 0, consumer: 1 }]);
    assert!(g.is_consumer_linked(1));
    assert!(!g.is_consumer_linked(2));
    assert_eq!(g.link("src", "depay"), Err(unlinkable("src", "depay")));
    assert_eq!(g.link("depay", "parse"), Ok(()));
    assert_eq!(g.links.len(), 2);
}

#[test]
fn link_many_is_not_atomic() {
    let mut g = PipelineGraph::new("p");
    g.add_many(vec![
        stage("rtph264depay", "depay"),
        stage("h264parse", "parse"),
        stage("autovideosink", "sink"),
        stage("videoconvert", "convert"),
    ])
    .unwrap();
    let r = g.link_many(&strings(&["depay", "parse", "sink", "convert"]));
    assert_eq!(r, Err(BridgeError::Unlinkable { producer: "parse".to_string(), consumer: "sink".to_string() }));
    assert_eq!(g.links, vec![Link { producer: 0, consumer: 1 }]);
}

#[test]
fn link_many_links_consecutive_pairs() {
    let mut g = PipelineGraph::new("p");
    g.add_many(vec![
        stage("h264parse", "parse"),
        stage("avdec_h264", "dec"),
        stage("videoconvert", "convert"),
        stage("autovideosink", "sink"),
    ])
    .unwrap();
    assert_eq!(g.link_many(&strings(&[])), Ok(()));
    assert_eq!(g.link_many(&strings(&["parse"])), Ok(()));
    assert!(g.links.is_empty());
    assert_eq!(g.link_many(&strings(&["parse", "dec", "convert", "sink"])), Ok(()));
    assert_eq!(
        g.links,
        vec![Link { producer: 0, consumer: 1 }, Link { producer: 1, consumer: 2 }, Link { producer: 2, consumer: 3 }]
    );
}

#[test]
fn set_state_follows_runtime_answer() {
    let mut g = PipelineGraph::new("p");
    assert_eq!(g.state, PipelineState::Null);
    assert_eq!(g.set_state(PipelineState::Playing, false), Err(BridgeError::StateChange));
    assert_eq!(g.state, PipelineState::Null);
    assert_eq!(g.set_state(PipelineState::Playing, true), Ok(()));
    assert_eq!(g.state, PipelineState::Playing);
    assert_eq!(g.set_state(PipelineState::Null, true), Ok(()));
    assert_eq!(g.state, PipelineState::Null);
}

#[test]
fn resolve_prefers_explicit_value() {
    assert_eq!(resolve(Some("a".to_string()), Some("b".to_string())), Some("a".to_string()));
    assert_eq!(resolve(None, Some("b".to_string())), Some("b".to_string()));
    assert_eq!(resolve(None, None), None);
    assert_eq!(resolve_required(None, Some("env".to_string()), "stream-name"), Ok("env".to_string()));
    assert_eq!(
        resolve_required(None, None, "stream-name"),
        Err(BridgeError::MissingRequiredParameter { name: "stream-name".to_string() })
    );
}

#[test]
fn rtsp_config_of_either_command() {
    let rtsp = RtspConfig { url: Some("rtsp://h/s".to_string()), user_id: None, password: None };
    let play = Commands::PlayBack { rtsp_config: rtsp.clone() };
    assert_eq!(play.rtsp_config(), &rtsp);
    let kvs = Commands::Kvs {
        kvs_config: KvsConfig { aws_access_key_id: None, aws_secret_key: None, stream_name: None, aws_region: None },
        rtsp_config: rtsp.clone(),
    };
    assert_eq!(kvs.rtsp_config(), &rtsp);
}

#[test]
fn rtspsrc_sets_given_parameters() {
    let cfg = RtspConfig { url: Some("rtsp://cam".to_string()), user_id: Some("me".to_string()), password: None };
    let s = rtspsrc(&cfg).unwrap();
    assert_eq!(s.kind, StageKind::RtspSource);
    assert_eq!(s.name, "source");
    assert_eq!(s.property("location"), Some("rtsp://cam".to_string()));
    assert_eq!(s.property("user-id"), Some("me".to_string()));
    assert_eq!(s.property("user-pw"), None);
}

#[test]
fn playback_chain_is_built_and_linked() {
    let cmd = Commands::PlayBack { rtsp_config: no_rtsp() };
    let g = build_pipeline(&cmd).unwrap();
    assert_eq!(g.name, "rtsp-to-kvs-pipeline");
    assert_eq!(g.state, PipelineState::Null);
    assert_eq!(names(&g), strings(&["source", "rtph264depay", "h264parse", "avdec_h264", "videoconvert", "videosink"]));
    let kinds: Vec<StageKind> = g.stages.iter().map(|s| s.kind).collect();
    assert_eq!(
        kinds,
        vec![
            StageKind::RtspSource,
            StageKind::RtpH264Depay,
            StageKind::H264Parse,
            StageKind::AvDecH264,
            StageKind::VideoConvert,
            StageKind::AutoVideoSink
        ]
    );
    let pairs: Vec<(usize, usize)> = g.links.iter().map(|l| (l.producer, l.consumer)).collect();
    assert_eq!(pairs, vec![(1, 2), (2, 3), (3, 4), (4, 5)]);
}

#[test]
fn ingestion_chain_is_built_and_configured() {
    let cmd = Commands::Kvs {
        kvs_config: KvsConfig {
            aws_access_key_id: Some("AK".to_string()),
            aws_secret_key: None,
            stream_name: Some("cam-stream".to_string()),
            aws_region: Some("eu-west-1".to_string()),
        },
        rtsp_config: no_rtsp(),
    };
    let g = build_pipeline(&cmd).unwrap();
    assert_eq!(names(&g), strings(&["source", "rtph264depay", "h264parse", "kvssink"]));
    let sink = &g.stages[3];
    assert_eq!(sink.kind, StageKind::KvsSink);
    assert_eq!(sink.property("access-key"), Some("AK".to_string()));
    assert_eq!(sink.property("secret-key"), None);
    assert_eq!(sink.property("stream-name"), Some("cam-stream".to_string()));
    assert_eq!(sink.property("aws-region"), Some("eu-west-1".to_string()));
    let pairs: Vec<(usize, usize)> = g.links.iter().map(|l| (l.producer, l.consumer)).collect();
    assert_eq!(pairs, vec![(1, 2), (2, 3)]);
}

#[test]
fn ingestion_without_stream_name_touches_nothing() {
    let mut g = PipelineGraph::new("p");
    let kvs = KvsConfig {
        aws_access_key_id: Some("AK".to_string()),
        aws_secret_key: Some("SK".to_string()),
        stream_name: resolve(None, None),
        aws_region: None,
    };
    let r = setup_kvssink(&mut g, stage("rtspsrc", "source"), stage("rtph264depay", "rtph264depay"), &kvs);
    assert_eq!(r, Err(BridgeError::MissingRequiredParameter { name: "stream-name".to_string() }));
    assert!(g.stages.is_empty());
}

#[test]
fn playback_on_taken_names_adds_nothing() {
    let mut g = PipelineGraph::new("p");
    g.add(stage("h264parse", "h264parse")).unwrap();
    let r = setup_playback(&mut g, stage("rtspsrc", "source"), stage("rtph264depay", "rtph264depay"));
    assert_eq!(r, Err(BridgeError::DuplicateStage { name: "h264parse".to_string() }));
    assert_eq!(names(&g), strings(&["h264parse"]));
}
