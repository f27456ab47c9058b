use vstd::prelude::*;

use crate::config::{Commands, KvsConfig, RtspConfig};
use crate::error::BridgeError;
use crate::graph::{
    chain_prefix_made, index_of, lemma_index_of_unique, link_allowed, link_between, named_at, names_of,
    views_of, Link, PipelineGraph, PipelineState,
};
use crate::stage::caps_compatible;
use crate::stage::{prop_value, Stage, StageKind};

verus! {

/// The view of an optional string.
pub open spec fn opt_view(o: Option<String>) -> Option<Seq<char>> {
    match o {
        Some(s) => Some(s@),
        None => None,
    }
}

/// The instance names the playback chain adds, after the source and depayloader.
pub open spec fn playback_batch(src: Seq<char>, depay: Seq<char>) -> Seq<Seq<char>> {
    seq![src, depay, "h264parse"@, "avdec_h264"@, "videoconvert"@, "videosink"@]
}

/// The stages the playback chain links, in order.
pub open spec fn playback_chain(depay: Seq<char>) -> Seq<Seq<char>> {
    seq![depay, "h264parse"@, "avdec_h264"@, "videoconvert"@, "videosink"@]
}

/// The instance names the ingestion chain adds, after the source and depayloader.
pub open spec fn ingestion_batch(src: Seq<char>, depay: Seq<char>) -> Seq<Seq<char>> {
    seq![src, depay, "h264parse"@, "kvssink"@]
}

/// The stages the ingestion chain links, in order.
pub open spec fn ingestion_chain(depay: Seq<char>) -> Seq<Seq<char>> {
    seq![depay, "h264parse"@, "kvssink"@]
}

/// Whether a stage is the ingestion sink configured from `cfg`.
pub open spec fn ingestion_sink_from(s: Stage, cfg: KvsConfig) -> bool {
    &&& s.kind == StageKind::KvsSink
    &&& s.name@ == "kvssink"@
    &&& prop_value(s.props@, "access-key"@) == opt_view(cfg.aws_access_key_id)
    &&& prop_value(s.props@, "secret-key"@) == opt_view(cfg.aws_secret_key)
    &&& prop_value(s.props@, "stream-name"@) == opt_view(cfg.stream_name)
    &&& prop_value(s.props@, "aws-region"@) == opt_view(cfg.aws_region)
}

/// Whether a stage is the RTSP source configured from `cfg`.
pub open spec fn source_from(s: Stage, cfg: RtspConfig) -> bool {
    &&& s.kind == StageKind::RtspSource
    &&& s.name@ == "source"@
    &&& prop_value(s.props@, "location"@) == opt_view(cfg.url)
    &&& prop_value(s.props@, "user-id"@) == opt_view(cfg.user_id)
    &&& prop_value(s.props@, "user-pw"@) == opt_view(cfg.password)
}

/// The outcome of adding `batch` to `before` and linking `chain`: a clash of
/// names leaves the graph as it was; otherwise the stages are in and the chain
/// is linked up to its first failure.
pub open spec fn added_and_chained(
    before: PipelineGraph,
    after: PipelineGraph,
    batch: Seq<Seq<char>>,
    chain: Seq<Seq<char>>,
    r: Result<(), BridgeError>,
) -> bool {
    &&& after.wf()
    &&& after.name == before.name
    &&& after.state == before.state
    &&& if (names_of(before.stages@) + batch).no_duplicates() {
        &&& after.stages@.len() == before.stages@.len() + batch.len()
        &&& after.stages@.subrange(0, before.stages@.len() as int) == before.stages@
        &&& names_of(after.stages@) == names_of(before.stages@) + batch
        &&& chain_prefix_made(after.stages@, before.links@, after.links@, chain)
        &&& (r is Ok <==> after.links@.len() - before.links@.len() == chain.len() - 1)
        &&& (r is Err ==> ({
            let k = after.links@.len() - before.links@.len();
            k + 1 < chain.len() && !link_allowed(after.stages@, after.links@, chain[k], chain[k + 1])
        }))
    } else {
        &&& after == before
        &&& r matches Err(e) && e is DuplicateStage
    }
}

/// Creates a stage of a kind that is always registered.
fn make(factory_name: &str, name: &str, kind: StageKind) -> (r: Stage)
    requires
        crate::stage::kind_name(kind) == factory_name@,
    ensures
        r.kind == kind,
        r.name@ == name@,
        r.props@.len() == 0,
{
    let s = Stage::create(factory_name, name).unwrap();
    proof {
        crate::stage::lemma_kind_name_injective(s.kind, kind);
    }
    s
}

/// Creates the RTSP source and assigns the connection parameters that are given.
pub fn rtspsrc(rtsp_config: &RtspConfig) -> (r: Result<Stage, BridgeError>)
    ensures
        r matches Ok(s) && source_from(s, *rtsp_config),
{
    let mut src = make("rtspsrc", "source", StageKind::RtspSource);
    proof {
        reveal_strlit("location");
        reveal_strlit("user-id");
        reveal_strlit("user-pw");
        assert("location"@.len() == 8 && "user-id"@.len() == 7 && "user-pw"@.len() == 7);
        assert("user-id"@[5] != "user-pw"@[5]);
    }
    if let Some(url) = &rtsp_config.url {
        src.set_property("location", url.as_str())?;
    }
    if let Some(user_id) = &rtsp_config.user_id {
        src.set_property("user-id", user_id.as_str())?;
    }
    if let Some(password) = &rtsp_config.password {
        src.set_property("user-pw", password.as_str())?;
    }
    Ok(src)
}

/// Adds the source, the depayloader and the local playback chain, and links
/// depayloader, parser, decoder, converter and display sink in that order.
pub fn setup_playback(
    pipeline: &mut PipelineGraph,
    rtsp_source: Stage,
    rtph264depay: Stage,
) -> (r: Result<(), BridgeError>)
    requires
        old(pipeline).wf(),
    ensures
        added_and_chained(
            *old(pipeline),
            *final(pipeline),
            playback_batch(rtsp_source.name@, rtph264depay.name@),
            playback_chain(rtph264depay.name@),
            r,
        ),
        (names_of(old(pipeline).stages@) + playback_batch(rtsp_source.name@, rtph264depay.name@)).no_duplicates()
            ==> ({
            let s = final(pipeline).stages@;
            let n = old(pipeline).stages@.len() as int;
            &&& s[n] == rtsp_source
            &&& s[n + 1] == rtph264depay
            &&& s[n + 2].kind == StageKind::H264Parse
            &&& s[n + 3].kind == StageKind::AvDecH264
            &&& s[n + 4].kind == StageKind::VideoConvert
            &&& s[n + 5].kind == StageKind::AutoVideoSink
        }),
{
    let h264_parse = make("h264parse", "h264parse", StageKind::H264Parse);
    let avdec_h264 = make("avdec_h264", "avdec_h264", StageKind::AvDecH264);
    let convert = make("videoconvert", "videoconvert", StageKind::VideoConvert);
    let sink = make("autovideosink", "videosink", StageKind::AutoVideoSink);
    let depay_name = rtph264depay.name.clone();
    let ghost batch_names = playback_batch(rtsp_source.name@, rtph264depay.name@);
    let ghost before = *pipeline;
    let batch = vec![rtsp_source, rtph264depay, h264_parse, avdec_h264, convert, sink];
    assert(names_of(batch@) == batch_names);
    let ghost added = batch@;
    pipeline.add_many(batch)?;
    assert(names_of(pipeline.stages@) =~= names_of(before.stages@) + batch_names);
    assert(pipeline.stages@.subrange(0, before.stages@.len() as int) =~= before.stages@);
    assert(pipeline.stages@[before.stages@.len() as int] == added[0]);
    let chain = vec![
        depay_name,
        "h264parse".to_owned(),
        "avdec_h264".to_owned(),
        "videoconvert".to_owned(),
        "videosink".to_owned(),
    ];
    assert(views_of(chain@) == playback_chain(rtph264depay.name@));
    pipeline.link_many(&chain)
}

/// Adds the source, the depayloader, a parser and the ingestion sink, whose
/// credentials, stream name and region come from `kvs_config`, and links
/// depayloader, parser and sink. Without a stream name it fails before any
/// stage is created.
pub fn setup_kvssink(
    pipeline: &mut PipelineGraph,
    rtsp_source: Stage,
    rtph264depay: Stage,
    kvs_config: &KvsConfig,
) -> (r: Result<(), BridgeError>)
    requires
        old(pipeline).wf(),
    ensures
        kvs_config.stream_name is None ==> *final(pipeline) == *old(pipeline) && (r matches Err(e)
            && e is MissingRequiredParameter),
        kvs_config.stream_name is Some ==> added_and_chained(
            *old(pipeline),
            *final(pipeline),
            ingestion_batch(rtsp_source.name@, rtph264depay.name@),
            ingestion_chain(rtph264depay.name@),
            r,
        ),
        kvs_config.stream_name is Some && (names_of(old(pipeline).stages@) + ingestion_batch(
            rtsp_source.name@,
            rtph264depay.name@,
        )).no_duplicates() ==> ({
            let s = final(pipeline).stages@;
            let n = old(pipeline).stages@.len() as int;
            &&& s[n] == rtsp_source
            &&& s[n + 1] == rtph264depay
            &&& s[n + 2].kind == StageKind::H264Parse
            &&& ingestion_sink_from(s[n + 3], *kvs_config)
        }),
{
    let stream_name = match &kvs_config.stream_name {
        Some(v) => v,
        None => {
            return Err(BridgeError::MissingRequiredParameter { name: "stream-name".to_owned() });
        },
    };
    let h264_parse = make("h264parse", "h264parse", StageKind::H264Parse);
    let mut kvssink = make("kvssink", "kvssink", StageKind::KvsSink);
    proof {
        reveal_strlit("access-key");
        reveal_strlit("secret-key");
        reveal_strlit("stream-name");
        reveal_strlit("aws-region");
        assert("access-key"@[0] != "secret-key"@[0] && "access-key"@[1] != "aws-region"@[1]);
        assert("secret-key"@[0] != "aws-region"@[0] && "stream-name"@.len() != "access-key"@.len());
        assert("stream-name"@.len() != "secret-key"@.len() && "stream-name"@.len() != "aws-region"@.len());
    }
    if let Some(access_key) = &kvs_config.aws_access_key_id {
        kvssink.set_property("access-key", access_key.as_str())?;
    }
    if let Some(secret_key) = &kvs_config.aws_secret_key {
        kvssink.set_property("secret-key", secret_key.as_str())?;
    }
    kvssink.set_property("stream-name", stream_name.as_str())?;
    if let Some(region) = &kvs_config.aws_region {
        kvssink.set_property("aws-region", region.as_str())?;
    }
    let depay_name = rtph264depay.name.clone();
    let ghost batch_names = ingestion_batch(rtsp_source.name@, rtph264depay.name@);
    let ghost before = *pipeline;
    let batch = vec![rtsp_source, rtph264depay, h264_parse, kvssink];
    assert(names_of(batch@) == batch_names);
    let ghost added = batch@;
    pipeline.add_many(batch)?;
    assert(names_of(pipeline.stages@) =~= names_of(before.stages@) + batch_names);
    assert(pipeline.stages@.subrange(0, before.stages@.len() as int) =~= before.stages@);
    assert(pipeline.stages@[before.stages@.len() as int] == added[0]);
    let chain = vec![depay_name, "h264parse".to_owned(), "kvssink".to_owned()];
    assert(views_of(chain@) == ingestion_chain(rtph264depay.name@));
    pipeline.link_many(&chain)
}

/// On a graph with no links whose stages after the first are named by
/// `chain`, in order and uniquely, a chain made only in part stopped at a pair
/// that could have been linked.
proof fn lemma_fresh_chain_next_allowed(stages: Seq<Stage>, links: Seq<Link>, chain: Seq<Seq<char>>)
    requires
        names_of(stages).no_duplicates(),
        stages.len() == chain.len() + 1,
        stages.len() <= 16,
        forall|j: int| 0 <= j < chain.len() ==> #[trigger] stages[j + 1].name@ == chain[j],
        forall|j: int|
            0 <= j < chain.len() - 1 ==> caps_compatible(#[trigger] stages[j + 1].kind, stages[j + 2].kind),
        chain_prefix_made(stages, Seq::empty(), links, chain),
        links.len() + 1 < chain.len(),
    ensures
        link_allowed(stages, links, chain[links.len() as int], chain[links.len() + 1int]),
{
    let k = links.len() as int;
    let k1 = k + 1;
    assert(stages[k + 1].name@ == chain[k]);
    assert(stages[k1 + 1].name@ == chain[k1]);
    lemma_index_of_unique(stages, k + 1, chain[k]);
    lemma_index_of_unique(stages, k + 2, chain[k + 1]);
    assert(caps_compatible(stages[k + 1].kind, stages[k + 2].kind));
    assert forall|i: int| 0 <= i < links.len() implies #[trigger] links[i].consumer != k + 2 by {
        assert(links.subrange(0, 0) == Seq::<Link>::empty());
        let _ = chain[i];
        assert(links[0 + i] == link_between(stages, chain[i], chain[i + 1]));
        let i1 = i + 1;
        assert(stages[i1 + 1].name@ == chain[i1]);
        lemma_index_of_unique(stages, i + 2, chain[i + 1]);
    }
}

/// The configuration of the RTSP source, whichever sink is chosen.
pub open spec fn rtsp_of(c: Commands) -> RtspConfig {
    match c {
        Commands::PlayBack { rtsp_config } => rtsp_config,
        Commands::Kvs { rtsp_config, .. } => rtsp_config,
    }
}

/// The links of a chain over stages 1, 2, ..., `n`.
pub open spec fn chain_links(n: nat) -> Seq<Link> {
    Seq::new((n - 1) as nat, |j: int| Link { producer: (j + 1) as usize, consumer: (j + 2) as usize })
}

/// Builds the whole pipeline for a run: the RTSP source and the depayloader,
/// then the chain of the chosen sink, in a new graph in the Null state. It fails
/// only when the ingestion sink has no stream name.
pub fn build_pipeline(command: &Commands) -> (r: Result<PipelineGraph, BridgeError>)
    ensures
        r is Err <==> (command matches Commands::Kvs { kvs_config, .. } && kvs_config.stream_name is None),
        r matches Err(e) ==> e is MissingRequiredParameter,
        r matches Ok(g) ==> ({
            &&& g.wf()
            &&& g.state == PipelineState::Null
            &&& g.name@ == "rtsp-to-kvs-pipeline"@
            &&& source_from(g.stages@[0], rtsp_of(*command))
            &&& g.stages@[1].kind == StageKind::RtpH264Depay
            &&& g.stages@[2].kind == StageKind::H264Parse
            &&& match *command {
                Commands::PlayBack { .. } => {
                    &&& names_of(g.stages@) == playback_batch("source"@, "rtph264depay"@)
                    &&& g.stages@[3].kind == StageKind::AvDecH264
                    &&& g.stages@[4].kind == StageKind::VideoConvert
                    &&& g.stages@[5].kind == StageKind::AutoVideoSink
                    &&& g.links@ == chain_links(5)
                },
                Commands::Kvs { kvs_config, .. } => {
                    &&& names_of(g.stages@) == ingestion_batch("source"@, "rtph264depay"@)
                    &&& ingestion_sink_from(g.stages@[3], kvs_config)
                    &&& g.links@ == chain_links(3)
                },
            }
        }),
{
    let mut pipeline = PipelineGraph::new("rtsp-to-kvs-pipeline");
    let rtsp_source = match rtspsrc(command.rtsp_config()) {
        Ok(s) => s,
        Err(e) => {
            return Err(e);
        },
    };
    let rtph264depay = make("rtph264depay", "rtph264depay", StageKind::RtpH264Depay);
    proof {
        reveal_strlit("source");
        reveal_strlit("rtph264depay");
        reveal_strlit("h264parse");
        reveal_strlit("avdec_h264");
        reveal_strlit("videoconvert");
        reveal_strlit("videosink");
        reveal_strlit("kvssink");
        assert(names_of(pipeline.stages@) =~= Seq::<Seq<char>>::empty());
    }
    let ghost empty_names = names_of(pipeline.stages@);
    assert(pipeline.links@ =~= Seq::<Link>::empty());
    match command {
        Commands::PlayBack { .. } => {
            let ghost batch = playback_batch("source"@, "rtph264depay"@);
            proof {
                assert(empty_names + batch =~= batch);
                assert(batch.no_duplicates()) by {
                    assert forall|i: int, j: int| 0 <= i < 6 && 0 <= j < 6 && i != j implies batch[i] != batch[j] by {
                        assert(batch[i].len() != batch[j].len() || batch[i][0] != batch[j][0]);
                    }
                }
            }
            let r = setup_playback(&mut pipeline, rtsp_source, rtph264depay);
            proof {
                let st = pipeline.stages@;
                let chain = playback_chain("rtph264depay"@);
                assert forall|j: int| 0 <= j < chain.len() implies #[trigger] st[j + 1].name@ == chain[j] by {
                    assert(names_of(st)[j + 1] == st[j + 1].name@);
                }
                if r is Err {
                    lemma_fresh_chain_next_allowed(st, pipeline.links@, chain);
                }
                let k = pipeline.links@.len() as int;
                assert forall|j: int| 0 <= j < 4 implies pipeline.links@[j] == chain_links(5)[j] by {
                    let _ = chain[j];
                    assert(pipeline.links@.subrange(0, 0) == Seq::<Link>::empty());
                    assert(pipeline.links@[0 + j] == link_between(st, chain[j], chain[j + 1]));
                    let j1 = j + 1;
                    assert(st[j1 + 1].name@ == chain[j1]);
                    lemma_index_of_unique(st, j + 1, chain[j]);
                    lemma_index_of_unique(st, j + 2, chain[j + 1]);
                }
                assert(pipeline.links@ =~= chain_links(5));
            }
            match r {
                Ok(()) => {},
                Err(e) => {
                    return Err(e);
                },
            }
        },
        Commands::Kvs { kvs_config, .. } => {
            let ghost batch = ingestion_batch("source"@, "rtph264depay"@);
            proof {
                assert(empty_names + batch =~= batch);
                assert(batch.no_duplicates()) by {
                    assert forall|i: int, j: int| 0 <= i < 4 && 0 <= j < 4 && i != j implies batch[i] != batch[j] by {
                        assert(batch[i].len() != batch[j].len() || batch[i][0] != batch[j][0]);
                    }
                }
            }
            let r = setup_kvssink(&mut pipeline, rtsp_source, rtph264depay, kvs_config);
            if kvs_config.stream_name.is_none() {
                return Err(BridgeError::MissingRequiredParameter { name: "stream-name".to_owned() });
            }
            proof {
                let st = pipeline.stages@;
                let chain = ingestion_chain("rtph264depay"@);
                assert forall|j: int| 0 <= j < chain.len() implies #[trigger] st[j + 1].name@ == chain[j] by {
                    assert(names_of(st)[j + 1] == st[j + 1].name@);
                }
                if r is Err {
                    lemma_fresh_chain_next_allowed(st, pipeline.links@, chain);
                }
                assert forall|j: int| 0 <= j < 2 implies pipeline.links@[j] == chain_links(3)[j] by {
                    let _ = chain[j];
                    assert(pipeline.links@.subrange(0, 0) == Seq::<Link>::empty());
                    assert(pipeline.links@[0 + j] == link_between(st, chain[j], chain[j + 1]));
                    let j1 = j + 1;
                    assert(st[j1 + 1].name@ == chain[j1]);
                    lemma_index_of_unique(st, j + 1, chain[j]);
                    lemma_index_of_unique(st, j + 2, chain[j + 1]);
                }
                assert(pipeline.links@ =~= chain_links(3));
            }
            match r {
                Ok(()) => {},
                Err(e) => {
                    return Err(e);
                },
            }
        },
    }
    Ok(pipeline)
}

} // verus!
