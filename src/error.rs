use vstd::prelude::*;

verus! {

/// Every failure the bridge can report while building or driving a pipeline.
#[derive(Debug, PartialEq, Eq)]
pub enum BridgeError {
    /// No stage implementation is registered under this type name.
    StageCreation { factory_name: String },
    /// The stage does not recognise the property name.
    Property { stage: String, key: String },
    /// A stage with this instance name is already in the graph.
    DuplicateStage { name: String },
    /// The two stages cannot be linked (not members, consumer taken, or incompatible).
    Unlinkable { producer: String, consumer: String },
    /// The runtime refused the requested state change.
    StateChange,
    /// A mandatory parameter was given neither explicitly nor by its fallback.
    MissingRequiredParameter { name: String },
}

} // verus!
