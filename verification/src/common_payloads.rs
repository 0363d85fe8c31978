//! Common request payloads: node data records and id-or-list parameter
//! shapes.

use vstd::prelude::*;

use crate::events::NodeInfo;
use crate::oid::OID;
use std::sync::atomic::{AtomicBool, Ordering};
use std::sync::Arc;
use std::time::Duration;

verus! {

/// Relies on `Arc::clone`: a second handle to the same shared flag.
#[verifier::external_body]
fn clone_arc_flag(v: &Arc<AtomicBool>) -> Arc<AtomicBool> {
    v.clone()
}

/// What one node looks like to its peers: the replication service that
/// manages it, whether it is online, its info and its timeout.
#[derive(Debug)]
pub struct NodeData {
    svc: Option<String>,
    online: Arc<AtomicBool>,
    info: Option<NodeInfo>,
    timeout: Option<Duration>,
}

impl NodeData {
    /// The managing service name, as contracts see it.
    pub closed spec fn spec_svc(&self) -> Option<Seq<char>> {
        match self.svc {
            Some(s) => Some(s@),
            None => None,
        }
    }

    /// The node info is present, as contracts see it.
    pub closed spec fn spec_has_info(&self) -> bool {
        self.info is Some
    }

    /// The timeout, as contracts see it.
    pub closed spec fn spec_timeout(&self) -> Option<Duration> {
        self.timeout
    }

    #[inline]
    pub fn new(
        svc: Option<&str>,
        online: bool,
        info: Option<NodeInfo>,
        timeout: Option<Duration>,
    ) -> (r: Self)
        ensures
            match svc {
                Some(s) => r.spec_svc() == Some(s@),
                None => r.spec_svc() is None,
            },
            r.spec_has_info() == (info is Some),
            r.spec_timeout() == timeout,
    {
        Self {
            svc: match svc {
                Some(s) => Some(s.to_owned()),
                None => None,
            },
            online: Arc::new(AtomicBool::new(online)),
            info,
            timeout,
        }
    }

    #[inline]
    pub fn svc(&self) -> (r: Option<&str>)
        ensures
            match r {
                Some(s) => self.spec_svc() == Some(s@),
                None => self.spec_svc() is None,
            },
    {
        match &self.svc {
            Some(s) => Some(s.as_str()),
            None => None,
        }
    }

    /// The current value of the shared online flag.
    #[inline]
    pub fn online(&self) -> bool {
        self.online.load(Ordering::SeqCst)
    }

    /// A handle to the shared online flag.
    #[inline]
    pub fn online_beacon(&self) -> Arc<AtomicBool> {
        clone_arc_flag(&self.online)
    }

    #[inline]
    pub fn info(&self) -> (r: Option<&NodeInfo>)
        ensures
            r is Some <==> self.spec_has_info(),
    {
        self.info.as_ref()
    }

    #[inline]
    pub fn timeout(&self) -> (r: Option<Duration>)
        ensures
            r == self.spec_timeout(),
    {
        self.timeout
    }

    /// Flips the shared online flag for every holder of the beacon.
    #[inline]
    pub fn set_online(&self, online: bool) {
        self.online.store(online, Ordering::SeqCst);
    }

    #[inline]
    pub fn update_info(&mut self, info: NodeInfo)
        ensures
            final(self).spec_has_info(),
            final(self).spec_svc() == old(self).spec_svc(),
            final(self).spec_timeout() == old(self).spec_timeout(),
    {
        self.info = Some(info);
    }

    #[inline]
    pub fn update_timeout(&mut self, timeout: Option<Duration>)
        ensures
            final(self).spec_timeout() == timeout,
            final(self).spec_svc() == old(self).spec_svc(),
            final(self).spec_has_info() == old(self).spec_has_info(),
    {
        self.timeout = timeout;
    }
}

/// A request addressing one id, borrowed.
#[derive(Debug, Clone)]
pub struct ParamsId<'a> {
    pub i: &'a str,
}

/// A request addressing one id, owned.
#[derive(Debug, Clone)]
pub struct ParamsIdOwned {
    pub i: String,
}

/// One value or a list of them.
#[derive(Debug)]
pub enum ValueOrList<T> {
    Single(T),
    Multiple(Vec<T>),
}

impl<T> ValueOrList<T> {
    /// A single value is never empty; a list is empty iff it holds no
    /// values.
    pub fn is_empty(&self) -> (r: bool)
        ensures
            r == match self {
                ValueOrList::Single(_) => false,
                ValueOrList::Multiple(v) => v@.len() == 0,
            },
    {
        match self {
            ValueOrList::Single(_) => false,
            ValueOrList::Multiple(v) => v.len() == 0,
        }
    }

    /// How many values are held.
    pub fn len(&self) -> (r: usize)
        ensures
            r == match self {
                ValueOrList::Single(_) => 1int,
                ValueOrList::Multiple(v) => v@.len() as int,
            },
    {
        match self {
            ValueOrList::Single(_) => 1,
            ValueOrList::Multiple(v) => v.len(),
        }
    }
}

impl<T> Default for ValueOrList<T> {
    fn default() -> (r: Self)
        ensures
            r matches ValueOrList::Multiple(v) && v@.len() == 0,
    {
        ValueOrList::Multiple(Vec::new())
    }
}

/// One id or a list of ids, borrowed.
pub type IdOrList<'a> = ValueOrList<&'a str>;

/// One id or a list of ids, owned.
pub type IdOrListOwned = ValueOrList<String>;

/// A request addressing one id or several, borrowed.
#[derive(Debug)]
pub struct ParamsIdOrList<'a> {
    pub i: IdOrList<'a>,
}

/// A request addressing one id or several, owned.
#[derive(Debug)]
pub struct ParamsIdOrListOwned {
    pub i: IdOrListOwned,
}

/// A request addressing a list of ids, borrowed.
#[derive(Debug, Clone)]
pub struct ParamsIdList<'a> {
    pub i: Vec<&'a str>,
}

/// A request addressing a list of ids, owned.
#[derive(Debug, Clone)]
pub struct ParamsIdListOwned {
    pub i: Vec<String>,
}

/// A request addressing one typed identifier.
#[derive(Debug, Clone)]
pub struct ParamsOID {
    pub i: OID,
}

} // verus!
