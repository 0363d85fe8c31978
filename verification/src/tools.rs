//! Small shared helpers: socket path parsing, path formatting and atomic
//! flag construction.

use vstd::prelude::*;

use crate::strpath::{has_prefix, push_char, starts_with};
use std::sync::atomic::AtomicBool;
use std::sync::Arc;

verus! {

/// A fresh atomic flag set to true.
pub fn atomic_true() -> AtomicBool {
    AtomicBool::new(true)
}

/// A fresh shared atomic flag set to true.
pub fn arc_atomic_true() -> Arc<AtomicBool> {
    Arc::new(AtomicBool::new(true))
}

/// A socket address: TCP, UDP, or a local socket path.
#[derive(Debug)]
pub enum SocketPath {
    Tcp(String),
    Udp(String),
    Unix(String),
}

impl SocketPath {
    /// Parses a socket path text; never fails. A `tcp://` or `udp://`
    /// prefix selects the scheme; anything else is a local socket path.
    pub fn parse(s: &str) -> (r: SocketPath)
        ensures
            has_prefix(s@, "tcp://"@) ==> (r matches SocketPath::Tcp(t) && t@ == s@.skip(
                "tcp://"@.len() as int,
            )),
            !has_prefix(s@, "tcp://"@) && has_prefix(s@, "udp://"@) ==> (r matches
                SocketPath::Udp(t) && t@ == s@.skip("udp://"@.len() as int)),
            !has_prefix(s@, "tcp://"@) && !has_prefix(s@, "udp://"@) ==> (r matches
                SocketPath::Unix(t) && t@ == s@),
    {
        if starts_with(s, "tcp://") {
            proof {
                reveal_strlit("tcp://");
            }
            let n = s.unicode_len();
            let tail = s.substring_char(6, n);
            proof {
                assert(tail@ =~= s@.skip(6));
            }
            SocketPath::Tcp(tail.to_owned())
        } else if starts_with(s, "udp://") {
            proof {
                reveal_strlit("tcp://");
                reveal_strlit("udp://");
            }
            let n = s.unicode_len();
            let tail = s.substring_char(6, n);
            proof {
                assert(tail@ =~= s@.skip(6));
            }
            SocketPath::Udp(tail.to_owned())
        } else {
            SocketPath::Unix(s.to_owned())
        }
    }
}

impl core::str::FromStr for SocketPath {
    type Err = crate::Error;

    fn from_str(s: &str) -> Result<SocketPath, crate::Error> {
        Ok(SocketPath::parse(s))
    }
}

/// Resolves a configured path against a base directory: an absolute path
/// stands alone, a relative one is joined to the base, and the default is
/// used when no path is given. One of path and default must be present.
pub fn format_path(base: &str, path: Option<&str>, default: Option<&str>) -> (r: String)
    requires
        path is Some || default is Some,
    ensures
        r@ == match path {
            Some(p) => if p@.len() > 0 && p@[0] == '/' {
                p@
            } else {
                base@ + seq!['/'] + p@
            },
            None => base@ + seq!['/'] + default->0@,
        },
{
    match path {
        Some(p) => {
            let starts_slash = if p.unicode_len() > 0 {
                p.get_char(0) == '/'
            } else {
                false
            };
            if starts_slash {
                p.to_owned()
            } else {
                let mut s = base.to_owned();
                push_char(&mut s, '/');
                s.append(p);
                proof {
                    assert(s@ =~= base@ + seq!['/'] + p@);
                }
                s
            }
        },
        None => {
            let d = match default {
                Some(d) => d,
                None => {
                    proof {
                        assert(false);
                    }
                    unreached()
                },
            };
            let mut s = base.to_owned();
            push_char(&mut s, '/');
            s.append(d);
            proof {
                assert(s@ =~= base@ + seq!['/'] + d@);
            }
            s
        },
    }
}

/// The constant true, usable as a configuration default.
pub fn default_true() -> (r: bool)
    ensures
        r,
{
    true
}

/// The flag's value.
pub fn is_true(b: &bool) -> (r: bool)
    ensures
        r == *b,
{
    *b
}

} // verus!
