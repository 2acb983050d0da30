//! Correlation labels.
//!
//! Every response travels with a label that names the driver, the version of
//! its protocol and the operation that the response belongs to. The transport
//! routes by it; the driver itself never reads one.

use vstd::prelude::*;

verus! {

/// The mathematical value of a label.
#[verifier::ext_equal]
pub struct Label {
    pub source: Seq<char>,
    pub version: nat,
    pub tags: Seq<Seq<char>>,
}

/// A label as it is handed to the transport.
#[derive(Debug, PartialEq, Eq)]
pub struct WireRepr {
    pub source: &'static str,
    pub version: u64,
    pub tags: Vec<String>,
}

impl View for WireRepr {
    type V = Label;

    open spec fn view(&self) -> Label {
        Label {
            source: self.source@,
            version: self.version as nat,
            tags: Seq::new(self.tags@.len(), |i: int| self.tags@[i]@),
        }
    }
}

/// The two operations of the driver, each with a label of its own.
#[derive(Clone, Copy, Debug, PartialEq, Eq, Structural)]
pub enum FileWire {
    Read,
    Write,
}

impl FileWire {
    /// The name under which the driver is known to the transport.
    pub const SOURCE: &'static str = "file";

    /// The version of the driver's protocol.
    pub const VERSION: u64 = 1;

    /// The word that names the operation in a label.
    pub open spec fn tag(self) -> Seq<char> {
        match self {
            FileWire::Read => "read"@,
            FileWire::Write => "write"@,
        }
    }

    /// The label of the operation.
    pub open spec fn label(self) -> Label {
        Label { source: FileWire::SOURCE@, version: FileWire::VERSION as nat, tags: seq![self.tag()] }
    }

    /// Builds the label of the operation: the driver's name, the protocol
    /// version, and the operation's word as the only tag.
    pub fn to_wire(&self) -> (r: WireRepr)
        ensures
            r@ == self.label(),
    {
        let tag = match self {
            FileWire::Read => "read",
            FileWire::Write => "write",
        };
        let mut tags: Vec<String> = Vec::new();
        tags.push(tag.to_owned());
        let r = WireRepr { source: FileWire::SOURCE, version: FileWire::VERSION, tags };
        assert(r@.tags =~= seq![self.tag()]);
        r
    }
}

} // verus!
