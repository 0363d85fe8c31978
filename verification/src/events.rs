//! Node state events: node status, node info and the force marker for
//! state updates.

use vstd::prelude::*;

use crate::error::{EResult, Error, ErrorKind};
use crate::strpath::str_eq;
use std::time::Duration;

verus! {

/// The status a node reports or is assigned.
#[derive(Debug, Clone, Copy, PartialEq, Eq, Structural)]
pub enum NodeStatus {
    Online,
    Offline,
    Removed,
}

impl NodeStatus {
    /// The canonical status text.
    pub open spec fn spec_str(self) -> Seq<char> {
        match self {
            NodeStatus::Online => "online"@,
            NodeStatus::Offline => "offline"@,
            NodeStatus::Removed => "removed"@,
        }
    }

    pub fn as_str(&self) -> (r: &'static str)
        ensures
            r@ == self.spec_str(),
    {
        match self {
            NodeStatus::Online => "online",
            NodeStatus::Offline => "offline",
            NodeStatus::Removed => "removed",
        }
    }

    /// Which texts parse to which status.
    pub open spec fn spec_parse(s: Seq<char>) -> Option<NodeStatus> {
        if s == "online"@ {
            Some(NodeStatus::Online)
        } else if s == "offline"@ {
            Some(NodeStatus::Offline)
        } else if s == "removed"@ {
            Some(NodeStatus::Removed)
        } else {
            None
        }
    }

    /// Parses a status text.
    pub fn parse(s: &str) -> (r: EResult<NodeStatus>)
        ensures
            match r {
                Ok(v) => Self::spec_parse(s@) == Some(v),
                Err(e) => Self::spec_parse(s@) is None && e.spec_kind()
                    == ErrorKind::InvalidData,
            },
    {
        if str_eq(s, "online") {
            Ok(NodeStatus::Online)
        } else if str_eq(s, "offline") {
            Ok(NodeStatus::Offline)
        } else if str_eq(s, "removed") {
            Ok(NodeStatus::Removed)
        } else {
            let mut m = "Invalid node status: ".to_owned();
            m.append(s);
            Err(Error::new(ErrorKind::InvalidData, m.as_str()))
        }
    }
}

impl core::str::FromStr for NodeStatus {
    type Err = Error;

    fn from_str(s: &str) -> Result<NodeStatus, Error> {
        NodeStatus::parse(s)
    }
}

/// Build and version of a node.
#[derive(Debug, Clone)]
pub struct NodeInfo {
    pub build: u64,
    pub version: String,
}

/// A node state change, as announced on the bus.
#[derive(Debug)]
pub struct NodeStateEvent {
    pub status: NodeStatus,
    pub info: Option<NodeInfo>,
    pub timeout: Option<Duration>,
}

/// How forcefully an item state update is applied: not at all beyond the
/// normal rules, also when the previous state is equal (`Update`), or
/// additionally when the item is disabled (`Full`).
#[derive(Debug, Clone, Copy, PartialEq, Eq, Structural)]
pub enum Force {
    Off,
    Update,
    Full,
}

impl Force {
    #[inline]
    pub fn is_none(&self) -> (r: bool)
        ensures
            r == (*self is Off),
    {
        matches!(self, Force::Off)
    }

    #[inline]
    pub fn is_weak(&self) -> (r: bool)
        ensures
            r == (*self is Update),
    {
        matches!(self, Force::Update)
    }

    #[inline]
    pub fn is_full(&self) -> (r: bool)
        ensures
            r == (*self is Full),
    {
        matches!(self, Force::Full)
    }

    #[inline]
    pub fn is_any(&self) -> (r: bool)
        ensures
            r == !(*self is Off),
    {
        !self.is_none()
    }
}

impl Default for Force {
    fn default() -> (r: Self)
        ensures
            r is Off,
    {
        Force::Off
    }
}

/// What to do when an on-modified rule hits an error: skip the
/// operation, reset the item, or process anyway.
#[derive(Debug, Clone, Copy, PartialEq, Eq, Structural)]
pub enum OnModifiedError {
    Skip,
    Reset,
    Process,
}

impl Default for OnModifiedError {
    fn default() -> (r: Self)
        ensures
            r is Process,
    {
        OnModifiedError::Process
    }
}

} // verus!
