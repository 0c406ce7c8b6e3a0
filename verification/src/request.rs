//! A snapshot of an outbound request, and its replication for a retry.

use crate::syntax::{
    header_name_accepted, header_name_parses, header_value_accepted, header_value_parses,
    method_accepted, method_parses, uri_accepted, uri_parses,
};
use vstd::prelude::*;

verus! {

/// The protocol version of a request.
#[derive(Clone, Copy, Debug, PartialEq, Eq)]
pub enum HttpVersion {
    Http09,
    Http10,
    Http11,
    Http2,
    Http3,
}

/// One header entry. A name may occur in several entries.
#[derive(Clone, Debug, PartialEq, Eq)]
pub struct Header {
    pub name: Vec<u8>,
    pub value: Vec<u8>,
}

/// The body of a request.
#[derive(Clone, Debug, PartialEq, Eq)]
pub enum Body {
    /// A buffer, which can be read any number of times.
    Buffered(Vec<u8>),
    /// A stream, which can be read once and so cannot be sent again.
    Streaming,
}

/// What a request holds: method, target, version, the header entries in
/// their order, and the body.
#[derive(Clone, Debug, PartialEq, Eq)]
pub struct RequestSnapshot {
    pub method: Vec<u8>,
    pub uri: Vec<u8>,
    pub version: HttpVersion,
    pub headers: Vec<Header>,
    pub body: Body,
}

/// Why a request could not be replicated.
#[derive(Clone, Copy, Debug, PartialEq, Eq)]
pub enum ReplicationError {
    InvalidUri,
    InvalidMethod,
    /// The name of the header entry at `index` is refused.
    InvalidHeaderName { index: usize },
    /// The value of the header entry at `index` is refused.
    InvalidHeaderValue { index: usize },
    /// The body is a stream.
    BodyNotReplicable,
}

/// The mathematical content of a [`Header`].
pub struct HeaderModel {
    pub name: Seq<u8>,
    pub value: Seq<u8>,
}

/// The mathematical content of a [`Body`].
pub enum BodyModel {
    Buffered(Seq<u8>),
    Streaming,
}

/// The mathematical content of a [`RequestSnapshot`].
pub struct RequestModel {
    pub method: Seq<u8>,
    pub uri: Seq<u8>,
    pub version: HttpVersion,
    pub headers: Seq<HeaderModel>,
    pub body: BodyModel,
}

impl View for Header {
    type V = HeaderModel;

    open spec fn view(&self) -> HeaderModel {
        HeaderModel { name: self.name@, value: self.value@ }
    }
}

impl View for Body {
    type V = BodyModel;

    open spec fn view(&self) -> BodyModel {
        match *self {
            Body::Buffered(bytes) => BodyModel::Buffered(bytes@),
            Body::Streaming => BodyModel::Streaming,
        }
    }
}

impl View for RequestSnapshot {
    type V = RequestModel;

    open spec fn view(&self) -> RequestModel {
        RequestModel {
            method: self.method@,
            uri: self.uri@,
            version: self.version,
            headers: Seq::new(self.headers@.len(), |i: int| self.headers@[i]@),
            body: self.body@,
        }
    }
}

/// What the request builder accepts of one header entry.
#[derive(Clone, Copy, Debug, PartialEq, Eq)]
pub struct HeaderAcceptance {
    pub name_accepted: bool,
    pub value_accepted: bool,
}

impl HeaderAcceptance {
    /// The entry is refused: its name is, or its value.
    pub open spec fn is_rejected(self) -> bool {
        !self.name_accepted || !self.value_accepted
    }
}

/// What the request builder accepts of each component of a request.
#[derive(Clone, Debug, PartialEq, Eq)]
pub struct Acceptance {
    pub uri_accepted: bool,
    pub method_accepted: bool,
    /// One answer for each header entry, in the order of the entries.
    pub headers: Vec<HeaderAcceptance>,
}

/// The mathematical content of an [`Acceptance`].
pub struct AcceptanceModel {
    pub uri_accepted: bool,
    pub method_accepted: bool,
    pub headers: Seq<HeaderAcceptance>,
}

impl View for Acceptance {
    type V = AcceptanceModel;

    open spec fn view(&self) -> AcceptanceModel {
        AcceptanceModel {
            uri_accepted: self.uri_accepted,
            method_accepted: self.method_accepted,
            headers: self.headers@,
        }
    }
}

/// What the request builder accepts of a request.
pub open spec fn acceptance_of(request: RequestModel) -> AcceptanceModel {
    AcceptanceModel {
        uri_accepted: uri_parses(request.uri),
        method_accepted: method_parses(request.method),
        headers: Seq::new(
            request.headers.len(),
            |i: int|
                HeaderAcceptance {
                    name_accepted: header_name_parses(request.headers[i].name),
                    value_accepted: header_value_parses(request.headers[i].value),
                },
        ),
    }
}

/// The index of the first refused entry at or after `start`, or the number
/// of entries where there is none.
pub open spec fn first_rejected(entries: Seq<HeaderAcceptance>, start: int) -> int
    decreases entries.len() - start,
{
    if start >= entries.len() {
        entries.len() as int
    } else if entries[start].is_rejected() {
        start
    } else {
        first_rejected(entries, start + 1)
    }
}

/// Why a request with this body cannot be replicated, given what is
/// accepted of it; `None` where it can. The components are taken in the order in which a request is
/// built: target, method, header entries from the first on (name before
/// value), body.
pub open spec fn defect(body: BodyModel, acceptance: AcceptanceModel) -> Option<ReplicationError> {
    let bad = first_rejected(acceptance.headers, 0);
    if !acceptance.uri_accepted {
        Some(ReplicationError::InvalidUri)
    } else if !acceptance.method_accepted {
        Some(ReplicationError::InvalidMethod)
    } else if bad < acceptance.headers.len() {
        if !acceptance.headers[bad].name_accepted {
            Some(ReplicationError::InvalidHeaderName { index: bad as usize })
        } else {
            Some(ReplicationError::InvalidHeaderValue { index: bad as usize })
        }
    } else if body is Streaming {
        Some(ReplicationError::BodyNotReplicable)
    } else {
        None
    }
}

/// A buffer of its own with the same bytes.
pub fn copy_bytes(source: &Vec<u8>) -> (copy: Vec<u8>)
    ensures
        copy@ == source@,
{
    let mut copy: Vec<u8> = Vec::new();
    let mut i: usize = 0;
    while i < source.len()
        invariant
            i <= source.len(),
            copy@ == source@.subrange(0, i as int),
        decreases source.len() - i,
    {
        copy.push(source[i]);
        i += 1;
    }
    copy
}

impl RequestSnapshot {
    /// Asks the request builder about each component.
    pub fn examine(&self) -> (acceptance: Acceptance)
        ensures
            acceptance@ == acceptance_of(self@),
    {
        let mut headers: Vec<HeaderAcceptance> = Vec::new();
        let mut i: usize = 0;
        while i < self.headers.len()
            invariant
                i <= self.headers.len(),
                headers@.len() == i,
                forall|k: int|
                    0 <= k < i ==> headers@[k] == #[trigger] acceptance_of(self@).headers[k],
            decreases self.headers.len() - i,
        {
            let entry = &self.headers[i];
            headers.push(
                HeaderAcceptance {
                    name_accepted: header_name_accepted(&entry.name),
                    value_accepted: header_value_accepted(&entry.value),
                },
            );
            i += 1;
        }
        let acceptance = Acceptance {
            uri_accepted: uri_accepted(&self.uri),
            method_accepted: method_accepted(&self.method),
            headers,
        };
        assert(acceptance@.headers =~= acceptance_of(self@).headers);
        acceptance
    }

    /// Replicates the request, given what the request builder accepts of it:
    /// a copy with the same method, target, version, header entries in the
    /// same order and body bytes, or the first defect.
    pub fn replicate_with(&self, acceptance: &Acceptance) -> (made: Result<
        RequestSnapshot,
        ReplicationError,
    >)
        requires
            acceptance.headers@.len() == self.headers@.len(),
        ensures
            match made {
                Ok(copy) => defect(self@.body, acceptance@) is None && copy@ == self@,
                Err(error) => defect(self@.body, acceptance@) == Some(error),
            },
    {
        if !acceptance.uri_accepted {
            return Err(ReplicationError::InvalidUri);
        }
        if !acceptance.method_accepted {
            return Err(ReplicationError::InvalidMethod);
        }
        let mut headers: Vec<Header> = Vec::new();
        let mut i: usize = 0;
        while i < self.headers.len()
            invariant
                i <= self.headers.len(),
                acceptance.uri_accepted,
                acceptance.method_accepted,
                acceptance.headers@.len() == self.headers@.len(),
                first_rejected(acceptance.headers@, 0) == first_rejected(
                    acceptance.headers@,
                    i as int,
                ),
                headers@.len() == i,
                forall|k: int| 0 <= k < i ==> (#[trigger] headers@[k])@ == self.headers@[k]@,
            decreases self.headers.len() - i,
        {
            let found = &acceptance.headers[i];
            if !found.name_accepted {
                return Err(ReplicationError::InvalidHeaderName { index: i });
            }
            if !found.value_accepted {
                return Err(ReplicationError::InvalidHeaderValue { index: i });
            }
            let entry = &self.headers[i];
            headers.push(Header { name: copy_bytes(&entry.name), value: copy_bytes(&entry.value) });
            i += 1;
        }
        let body = match &self.body {
            Body::Buffered(bytes) => Body::Buffered(copy_bytes(bytes)),
            Body::Streaming => {
                return Err(ReplicationError::BodyNotReplicable);
            },
        };
        let copy = RequestSnapshot {
            method: copy_bytes(&self.method),
            uri: copy_bytes(&self.uri),
            version: self.version,
            headers,
            body,
        };
        assert(copy@.headers =~= self@.headers);
        Ok(copy)
    }

    /// Replicates the request for a retry: a copy of its own with the same
    /// method, target, version, header entries in the same order and body
    /// bytes. It fails where the request builder refuses a component, and
    /// where the body is a stream.
    pub fn replicate(&self) -> (made: Result<RequestSnapshot, ReplicationError>)
        ensures
            match made {
                Ok(copy) => defect(self@.body, acceptance_of(self@)) is None && copy@ == self@,
                Err(error) => defect(self@.body, acceptance_of(self@)) == Some(error),
            },
    {
        let acceptance = self.examine();
        self.replicate_with(&acceptance)
    }
}

} // verus!
