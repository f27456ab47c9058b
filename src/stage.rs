use vstd::prelude::*;

use crate::error::BridgeError;

verus! {

/// The closed set of stage types this bridge knows how to create.
#[derive(Debug, Clone, Copy, PartialEq, Eq, Structural)]
pub enum StageKind {
    RtspSource,
    RtpH264Depay,
    H264Parse,
    AvDecH264,
    VideoConvert,
    AutoVideoSink,
    KvsSink,
}

/// The media carried across a link, as declared by each stage type.
#[derive(Debug, Clone, Copy, PartialEq, Eq, Structural)]
pub enum Caps {
    Rtp,
    H264,
    RawVideo,
}

/// The registered type name of each kind.
pub open spec fn kind_name(k: StageKind) -> Seq<char> {
    match k {
        StageKind::RtspSource => "rtspsrc"@,
        StageKind::RtpH264Depay => "rtph264depay"@,
        StageKind::H264Parse => "h264parse"@,
        StageKind::AvDecH264 => "avdec_h264"@,
        StageKind::VideoConvert => "videoconvert"@,
        StageKind::AutoVideoSink => "autovideosink"@,
        StageKind::KvsSink => "kvssink"@,
    }
}

/// Whether some kind is registered under the type name `t`.
pub open spec fn is_registered(t: Seq<char>) -> bool {
    exists|k: StageKind| kind_name(k) == t
}

/// What a stage of kind `k` produces on its default output, if it has one.
pub open spec fn output_caps(k: StageKind) -> Option<Caps> {
    match k {
        StageKind::RtspSource => Some(Caps::Rtp),
        StageKind::RtpH264Depay => Some(Caps::H264),
        StageKind::H264Parse => Some(Caps::H264),
        StageKind::AvDecH264 => Some(Caps::RawVideo),
        StageKind::VideoConvert => Some(Caps::RawVideo),
        StageKind::AutoVideoSink => None,
        StageKind::KvsSink => None,
    }
}

/// What a stage of kind `k` accepts on its input, if it has one.
pub open spec fn input_caps(k: StageKind) -> Option<Caps> {
    match k {
        StageKind::RtspSource => None,
        StageKind::RtpH264Depay => Some(Caps::Rtp),
        StageKind::H264Parse => Some(Caps::H264),
        StageKind::AvDecH264 => Some(Caps::H264),
        StageKind::VideoConvert => Some(Caps::RawVideo),
        StageKind::AutoVideoSink => Some(Caps::RawVideo),
        StageKind::KvsSink => Some(Caps::H264),
    }
}

/// The static pre-check for a link from a `p` stage to a `c` stage.
pub open spec fn caps_compatible(p: StageKind, c: StageKind) -> bool {
    output_caps(p) is Some && output_caps(p) == input_caps(c)
}

/// The property names a stage of kind `k` accepts.
pub open spec fn accepts_property(k: StageKind, key: Seq<char>) -> bool {
    match k {
        StageKind::RtspSource => key == "location"@ || key == "user-id"@ || key == "user-pw"@,
        StageKind::KvsSink => key == "access-key"@ || key == "secret-key"@ || key == "stream-name"@
            || key == "aws-region"@,
        _ => false,
    }
}

/// The length and first character of each registered type name.
proof fn lemma_kind_name_shape(k: StageKind)
    ensures
        kind_name(k).len() == match k {
            StageKind::RtspSource => 7nat,
            StageKind::RtpH264Depay => 12,
            StageKind::H264Parse => 9,
            StageKind::AvDecH264 => 10,
            StageKind::VideoConvert => 12,
            StageKind::AutoVideoSink => 13,
            StageKind::KvsSink => 7,
        },
        kind_name(k)[0] == match k {
            StageKind::RtspSource => 'r',
            StageKind::RtpH264Depay => 'r',
            StageKind::H264Parse => 'h',
            StageKind::AvDecH264 => 'a',
            StageKind::VideoConvert => 'v',
            StageKind::AutoVideoSink => 'a',
            StageKind::KvsSink => 'k',
        },
{
    match k {
        StageKind::RtspSource => reveal_strlit("rtspsrc"),
        StageKind::RtpH264Depay => reveal_strlit("rtph264depay"),
        StageKind::H264Parse => reveal_strlit("h264parse"),
        StageKind::AvDecH264 => reveal_strlit("avdec_h264"),
        StageKind::VideoConvert => reveal_strlit("videoconvert"),
        StageKind::AutoVideoSink => reveal_strlit("autovideosink"),
        StageKind::KvsSink => reveal_strlit("kvssink"),
    }
}

/// Distinct kinds are registered under distinct type names.
pub proof fn lemma_kind_name_injective(a: StageKind, b: StageKind)
    requires
        kind_name(a) == kind_name(b),
    ensures
        a == b,
{
    lemma_kind_name_shape(a);
    lemma_kind_name_shape(b);
    assert(kind_name(a).len() == kind_name(b).len());
    assert(kind_name(a)[0] == kind_name(b)[0]);
}

impl StageKind {
    /// The registered type name of this kind.
    pub fn factory_name(&self) -> (r: String)
        ensures
            r@ == kind_name(*self),
    {
        let s: &str = match self {
            StageKind::RtspSource => "rtspsrc",
            StageKind::RtpH264Depay => "rtph264depay",
            StageKind::H264Parse => "h264parse",
            StageKind::AvDecH264 => "avdec_h264",
            StageKind::VideoConvert => "videoconvert",
            StageKind::AutoVideoSink => "autovideosink",
            StageKind::KvsSink => "kvssink",
        };
        s.to_owned()
    }

    /// Looks a kind up by its registered type name.
    pub fn from_factory_name(t: &str) -> (r: Option<StageKind>)
        ensures
            r is Some <==> is_registered(t@),
            r matches Some(k) ==> kind_name(k) == t@,
    {
        let wanted = t.to_owned();
        let kinds = [
            StageKind::RtspSource,
            StageKind::RtpH264Depay,
            StageKind::H264Parse,
            StageKind::AvDecH264,
            StageKind::VideoConvert,
            StageKind::AutoVideoSink,
            StageKind::KvsSink,
        ];
        let mut i: usize = 0;
        while i < 7
            invariant
                i <= 7,
                kinds@ == seq![
                    StageKind::RtspSource,
                    StageKind::RtpH264Depay,
                    StageKind::H264Parse,
                    StageKind::AvDecH264,
                    StageKind::VideoConvert,
                    StageKind::AutoVideoSink,
                    StageKind::KvsSink,
                ],
                wanted@ == t@,
                forall|j: int| 0 <= j < i ==> kind_name(#[trigger] kinds@[j]) != t@,
            decreases 7 - i,
        {
            let k = kinds[i];
            let name = k.factory_name();
            if name == wanted {
                assert(kind_name(k) == t@);
                return Some(k);
            }
            i = i + 1;
        }
        proof {
            assert forall|k: StageKind| kind_name(k) != t@ by {
                match k {
                    StageKind::RtspSource => assert(kinds@[0] == k),
                    StageKind::RtpH264Depay => assert(kinds@[1] == k),
                    StageKind::H264Parse => assert(kinds@[2] == k),
                    StageKind::AvDecH264 => assert(kinds@[3] == k),
                    StageKind::VideoConvert => assert(kinds@[4] == k),
                    StageKind::AutoVideoSink => assert(kinds@[5] == k),
                    StageKind::KvsSink => assert(kinds@[6] == k),
                }
            }
        }
        None
    }

    /// Whether this kind accepts the property `key`.
    pub fn has_property(&self, key: &str) -> (r: bool)
        ensures
            r == accepts_property(*self, key@),
    {
        let key = key.to_owned();
        match self {
            StageKind::RtspSource => key == "location".to_owned() || key == "user-id".to_owned()
                || key == "user-pw".to_owned(),
            StageKind::KvsSink => key == "access-key".to_owned() || key == "secret-key".to_owned()
                || key == "stream-name".to_owned() || key == "aws-region".to_owned(),
            _ => false,
        }
    }

    /// The static capability check between a producer and a consumer kind.
    pub fn compatible_with(&self, consumer: &StageKind) -> (r: bool)
        ensures
            r == caps_compatible(*self, *consumer),
    {
        let out = match self {
            StageKind::RtspSource => Some(Caps::Rtp),
            StageKind::RtpH264Depay | StageKind::H264Parse => Some(Caps::H264),
            StageKind::AvDecH264 | StageKind::VideoConvert => Some(Caps::RawVideo),
            StageKind::AutoVideoSink | StageKind::KvsSink => None,
        };
        let inp = match consumer {
            StageKind::RtspSource => None,
            StageKind::RtpH264Depay => Some(Caps::Rtp),
            StageKind::H264Parse | StageKind::AvDecH264 | StageKind::KvsSink => Some(Caps::H264),
            StageKind::VideoConvert | StageKind::AutoVideoSink => Some(Caps::RawVideo),
        };
        match (out, inp) {
            (Some(a), Some(b)) => a == b,
            _ => false,
        }
    }
}

/// A named unit of media processing with the properties assigned to it so far.
#[derive(Debug)]
pub struct Stage {
    pub kind: StageKind,
    pub name: String,
    /// Assignments in the order made; a later one for the same key wins.
    pub props: Vec<(String, String)>,
}

/// The value last assigned to `key` in `props`, if any.
pub open spec fn prop_value(props: Seq<(String, String)>, key: Seq<char>) -> Option<Seq<char>>
    decreases props.len(),
{
    if props.len() == 0 {
        None
    } else if props.last().0@ == key {
        Some(props.last().1@)
    } else {
        prop_value(props.drop_last(), key)
    }
}

impl Stage {
    /// Creates a stage of the registered type `factory_name`, with no properties set.
    pub fn create(factory_name: &str, instance_name: &str) -> (r: Result<Stage, BridgeError>)
        ensures
            r is Ok <==> is_registered(factory_name@),
            r matches Ok(s) ==> kind_name(s.kind) == factory_name@ && s.name@ == instance_name@
                && s.props@.len() == 0,
            r matches Err(e) ==> e matches BridgeError::StageCreation { factory_name: t } && t@
                == factory_name@,
    {
        match StageKind::from_factory_name(factory_name) {
            Some(kind) => Ok(Stage { kind, name: instance_name.to_owned(), props: Vec::new() }),
            None => Err(BridgeError::StageCreation { factory_name: factory_name.to_owned() }),
        }
    }

    /// Assigns `value` to the property `key`, if this stage's kind has it.
    pub fn set_property(&mut self, key: &str, value: &str) -> (r: Result<(), BridgeError>)
        ensures
            r is Ok <==> accepts_property(old(self).kind, key@),
            final(self).kind == old(self).kind,
            final(self).name == old(self).name,
            r is Ok ==> prop_value(final(self).props@, key@) == Some(value@),
            r is Ok ==> forall|k: Seq<char>| k != key@ ==> prop_value(final(self).props@, k)
                == prop_value(old(self).props@, k),
            r is Err ==> final(self).props@ == old(self).props@,
            r matches Err(e) ==> e matches BridgeError::Property { stage, key: k } && stage@
                == old(self).name@ && k@ == key@,
    {
        if self.kind.has_property(key) {
            let ghost before = self.props@;
            self.props.push((key.to_owned(), value.to_owned()));
            proof {
                assert(self.props@.drop_last() == before);
            }
            Ok(())
        } else {
            Err(BridgeError::Property { stage: self.name.clone(), key: key.to_owned() })
        }
    }

    /// The value last assigned to `key`, if any.
    pub fn property(&self, key: &str) -> (r: Option<String>)
        ensures
            r matches Some(v) ==> prop_value(self.props@, key@) == Some(v@),
            r is None ==> prop_value(self.props@, key@) is None,
    {
        let wanted = key.to_owned();
        let mut i: usize = self.props.len();
        assert(self.props@.subrange(0, i as int) == self.props@);
        while i > 0
            invariant
                i <= self.props@.len(),
                wanted@ == key@,
                prop_value(self.props@, key@) == prop_value(self.props@.subrange(0, i as int), key@),
            decreases i,
        {
            let ghost pre = self.props@.subrange(0, i as int);
            assert(pre.drop_last() == self.props@.subrange(0, i - 1));
            if self.props[i - 1].0 == wanted {
                assert(pre.last() == self.props@[i - 1]);
                return Some(self.props[i - 1].1.clone());
            }
            i = i - 1;
        }
        None
    }
}

} // verus!
