use vstd::prelude::*;

use crate::error::BridgeError;

verus! {

/// Connection parameters of the RTSP source.
#[derive(Debug, Clone, PartialEq, Eq)]
pub struct RtspConfig {
    pub url: Option<String>,
    pub user_id: Option<String>,
    pub password: Option<String>,
}

/// Parameters of the cloud-ingestion sink.
#[derive(Debug, Clone, PartialEq, Eq)]
pub struct KvsConfig {
    pub aws_access_key_id: Option<String>,
    pub aws_secret_key: Option<String>,
    pub stream_name: Option<String>,
    pub aws_region: Option<String>,
}

/// The sink a run feeds, with its parameters.
#[derive(Debug, Clone, PartialEq, Eq)]
pub enum Commands {
    /// Play the video stream locally.
    PlayBack { rtsp_config: RtspConfig },
    /// Send the video stream to the ingestion service.
    Kvs { kvs_config: KvsConfig, rtsp_config: RtspConfig },
}

impl Commands {
    /// The source parameters, whichever sink is chosen.
    pub fn rtsp_config(&self) -> (r: &RtspConfig)
        ensures
            r == (match *self {
                Commands::PlayBack { rtsp_config } => rtsp_config,
                Commands::Kvs { rtsp_config, .. } => rtsp_config,
            }),
    {
        match self {
            Commands::PlayBack { rtsp_config } => rtsp_config,
            Commands::Kvs { rtsp_config, .. } => rtsp_config,
        }
    }
}

/// The explicit value when there is one, else the fallback.
pub open spec fn resolved(explicit: Option<String>, fallback: Option<String>) -> Option<String> {
    if explicit is Some {
        explicit
    } else {
        fallback
    }
}

/// Takes the explicit value when there is one, else the fallback.
pub fn resolve(explicit: Option<String>, fallback: Option<String>) -> (r: Option<String>)
    ensures
        r == resolved(explicit, fallback),
{
    match explicit {
        Some(v) => Some(v),
        None => fallback,
    }
}

/// Takes the explicit value, else the fallback; fails naming `param` when
/// there is neither.
pub fn resolve_required(explicit: Option<String>, fallback: Option<String>, param: &str) -> (r: Result<
    String,
    BridgeError,
>)
    ensures
        r is Ok <==> resolved(explicit, fallback) is Some,
        r matches Ok(v) ==> resolved(explicit, fallback) == Some(v),
        r matches Err(e) ==> e matches BridgeError::MissingRequiredParameter { name } && name@ == param@,
{
    match resolve(explicit, fallback) {
        Some(v) => Ok(v),
        None => Err(BridgeError::MissingRequiredParameter { name: param.to_owned() }),
    }
}

} // verus!
