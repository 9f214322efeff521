//! The remote-mirroring client and its sequence-token-ordered append
//! protocol.
//!
//! `Aws` is the handle to one named stream inside one log group of an
//! append-only remote log service. The service itself is consumed
//! through three calls — create a stream, describe the streams of a
//! group, append events tagged with the stream's current sequence token —
//! and `RemoteGroup` models that contract exactly: each stream carries
//! the token the service would hand out next, an append must present it,
//! and a successful append advances it. `Aws::put_log` runs the
//! describe-then-put protocol against the model; the shell around the
//! library runs the same two calls against the live service and reuses
//! `select_stream_token` for the only computation between them.

use vstd::prelude::*;

use crate::text::str_eq;

verus! {

/// A failure while eagerly provisioning the remote stream at
/// configuration time.
#[derive(Clone, Copy, Debug, PartialEq, Eq, Structural)]
pub enum RemoteProvisionError {
    /// The group already holds a stream of that name.
    StreamAlreadyExists,
}

/// A failure while appending to the remote stream.
#[derive(Clone, Copy, Debug, PartialEq, Eq, Structural)]
pub enum RemoteAppendError {
    /// The group holds no stream of the expected name.
    StreamNotFound,
    /// The append carried a token that is not the stream's current one.
    InvalidSequenceToken,
}

/// One event of the remote stream: a wall-clock instant in milliseconds
/// and the mirrored message text.
#[derive(Debug)]
pub struct LogEvent {
    pub timestamp: i64,
    pub message: String,
}

/// The remote service's state for one named stream: the events appended
/// so far and the sequence token the next append must present.
#[derive(Debug)]
pub struct RemoteStream {
    pub name: String,
    pub events: Vec<LogEvent>,
    pub token: u64,
}

/// The remote service's state for one log group.
#[derive(Debug)]
pub struct RemoteGroup {
    pub name: String,
    pub streams: Vec<RemoteStream>,
}

/// Index of the first stream named `name`, or `-1` when there is none.
pub open spec fn stream_index(streams: Seq<RemoteStream>, name: Seq<char>) -> int
    decreases streams.len(),
{
    if streams.len() == 0 {
        -1
    } else if streams[0].name@ == name {
        0
    } else {
        let rest = stream_index(streams.drop_first(), name);
        if rest < 0 {
            -1
        } else {
            rest + 1
        }
    }
}

/// What `stream_index` finds: a first match within bounds, or nothing
/// anywhere.
pub proof fn lemma_stream_index_props(streams: Seq<RemoteStream>, name: Seq<char>)
    ensures
        -1 <= stream_index(streams, name) < streams.len(),
        stream_index(streams, name) >= 0 ==> streams[stream_index(streams, name)].name@ == name,
        stream_index(streams, name) >= 0 ==> forall|j: int|
            0 <= j < stream_index(streams, name) ==> streams[j].name@ != name,
        stream_index(streams, name) == -1 ==> forall|j: int|
            0 <= j < streams.len() ==> streams[j].name@ != name,
    decreases streams.len(),
{
    if streams.len() == 0 {
    } else if streams[0].name@ == name {
    } else {
        lemma_stream_index_props(streams.drop_first(), name);
        assert forall|j: int| 1 <= j < streams.len() implies streams.drop_first()[j - 1]
            == streams[j] by {}
    }
}

/// A first match at `k` makes `stream_index` return `k`.
pub proof fn lemma_stream_index_first(streams: Seq<RemoteStream>, name: Seq<char>, k: int)
    requires
        0 <= k < streams.len(),
        streams[k].name@ == name,
        forall|j: int| 0 <= j < k ==> streams[j].name@ != name,
    ensures
        stream_index(streams, name) == k,
    decreases streams.len(),
{
    if k == 0 {
    } else {
        assert(streams[0].name@ != name);
        assert forall|j: int| 0 <= j < k - 1 implies streams.drop_first()[j].name@ != name by {
            assert(streams.drop_first()[j] == streams[j + 1]);
        }
        assert(streams.drop_first()[k - 1] == streams[k]);
        lemma_stream_index_first(streams.drop_first(), name, k - 1);
    }
}

/// Index of the first matching stream of `streams`, or `None`.
fn find_stream(streams: &Vec<RemoteStream>, name: &str) -> (r: Option<usize>)
    ensures
        match r {
            Some(k) => k == stream_index(streams@, name@) && k < streams@.len(),
            None => stream_index(streams@, name@) == -1,
        },
{
    let mut k: usize = 0;
    while k < streams.len()
        invariant
            k <= streams@.len(),
            forall|j: int| 0 <= j < k ==> streams@[j].name@ != name@,
        decreases streams@.len() - k,
    {
        if str_eq(streams[k].name.as_str(), name) {
            proof {
                lemma_stream_index_first(streams@, name@, k as int);
            }
            return Some(k);
        }
        k += 1;
    }
    proof {
        lemma_stream_index_props(streams@, name@);
    }
    None
}

/// The consumed append contract: an append to `stream_name` tagged with
/// `token` turns the group `pre` into `post` with result `r`. A missing
/// stream rejects the call, a stale token rejects the call, and a
/// current token appends one event, advances the stream's token and
/// returns it.
pub open spec fn put_outcome(
    pre: RemoteGroup,
    post: RemoteGroup,
    stream_name: Seq<char>,
    token: u64,
    timestamp: i64,
    message: Seq<char>,
    r: Result<u64, RemoteAppendError>,
) -> bool {
    let k = stream_index(pre.streams@, stream_name);
    if k < 0 {
        r == Result::<u64, RemoteAppendError>::Err(RemoteAppendError::StreamNotFound) && post
            == pre
    } else {
        let s = pre.streams@[k];
        if token != s.token {
            r == Result::<u64, RemoteAppendError>::Err(RemoteAppendError::InvalidSequenceToken)
                && post == pre
        } else {
            &&& r == Result::<u64, RemoteAppendError>::Ok((s.token + 1) as u64)
            &&& post.name == pre.name
            &&& post.streams@.len() == pre.streams@.len()
            &&& forall|j: int|
                0 <= j < pre.streams@.len() && j != k ==> post.streams@[j] == pre.streams@[j]
            &&& post.streams@[k].name@ == s.name@
            &&& post.streams@[k].token == s.token + 1
            &&& post.streams@[k].events@.len() == s.events@.len() + 1
            &&& forall|j: int| 0 <= j < s.events@.len() ==> post.streams@[k].events@[j]
                == s.events@[j]
            &&& post.streams@[k].events@.last().timestamp == timestamp
            &&& post.streams@[k].events@.last().message@ == message
        }
    }
}

impl RemoteGroup {
    /// Models the service's append call (`PutLogEvents`): validates the
    /// sequence token against the named stream and either appends the
    /// event and returns the next token, or rejects the call unchanged.
    pub fn put_events(
        &mut self,
        stream_name: &str,
        sequence_token: u64,
        timestamp: i64,
        message: String,
    ) -> (r: Result<u64, RemoteAppendError>)
        requires
            sequence_token < u64::MAX,
        ensures
            put_outcome(
                *old(self),
                *final(self),
                stream_name@,
                sequence_token,
                timestamp,
                message@,
                r,
            ),
    {
        let found = find_stream(&self.streams, stream_name);
        match found {
            None => Err(RemoteAppendError::StreamNotFound),
            Some(k) => {
                let observed = self.streams[k].token;
                if observed != sequence_token {
                    Err(RemoteAppendError::InvalidSequenceToken)
                } else {
                    let s = self.streams.remove(k);
                    let next = s.token + 1;
                    let mut events = s.events;
                    events.push(LogEvent { timestamp, message });
                    self.streams.insert(k, RemoteStream { name: s.name, events, token: next });
                    proof {
                        lemma_stream_index_props(old(self).streams@, stream_name@);
                    }
                    Ok(next)
                }
            },
        }
    }
}

/// The handle to one remote stream: the region the service is addressed
/// in and the names of the log group and the log stream.
#[derive(Clone, Debug)]
pub struct Aws {
    pub region: String,
    pub log_group_name: String,
    pub log_stream_name: String,
}

impl Aws {
    /// A handle for the named stream of the named group.
    pub fn new(region: String, log_group_name: String, log_stream_name: String) -> (r: Self)
        ensures
            r.region == region,
            r.log_group_name == log_group_name,
            r.log_stream_name == log_stream_name,
    {
        Aws { region, log_group_name, log_stream_name }
    }

    /// The consumed provisioning contract: creating the handle's stream
    /// in the group `pre` yields `post` and `r`. A fresh name adds an
    /// empty stream whose first append needs token zero; a taken name
    /// rejects the call unchanged.
    pub open spec fn create_outcome(
        self,
        pre: RemoteGroup,
        post: RemoteGroup,
        r: Result<(), RemoteProvisionError>,
    ) -> bool {
        if stream_index(pre.streams@, self.log_stream_name@) >= 0 {
            r == Result::<(), RemoteProvisionError>::Err(
                RemoteProvisionError::StreamAlreadyExists,
            ) && post == pre
        } else {
            &&& r == Result::<(), RemoteProvisionError>::Ok(())
            &&& post.name == pre.name
            &&& post.streams@.len() == pre.streams@.len() + 1
            &&& forall|j: int| 0 <= j < pre.streams@.len() ==> post.streams@[j]
                == pre.streams@[j]
            &&& post.streams@.last().name@ == self.log_stream_name@
            &&& post.streams@.last().events@.len() == 0
            &&& post.streams@.last().token == 0
        }
    }

    /// Eagerly provisions the handle's stream in the group, as the
    /// remote `CreateLogStream` call does.
    pub fn create_log_stream(&self, group: &mut RemoteGroup) -> (r: Result<
        (),
        RemoteProvisionError,
    >)
        requires
            old(group).name@ == self.log_group_name@,
        ensures
            self.create_outcome(*old(group), *final(group), r),
    {
        let found = find_stream(&group.streams, self.log_stream_name.as_str());
        match found {
            Some(_) => Err(RemoteProvisionError::StreamAlreadyExists),
            None => {
                group.streams.push(
                    RemoteStream { name: self.log_stream_name.clone(), events: Vec::new(), token: 0 },
                );
                Ok(())
            },
        }
    }

    /// One mirrored append under the describe-then-put protocol: the
    /// observed token is the named stream's current one, so the append
    /// is accepted whenever the stream exists.
    pub open spec fn put_log_outcome(
        self,
        pre: RemoteGroup,
        post: RemoteGroup,
        timestamp: i64,
        message: Seq<char>,
        r: Result<u64, RemoteAppendError>,
    ) -> bool {
        let k = stream_index(pre.streams@, self.log_stream_name@);
        if k < 0 {
            r == Result::<u64, RemoteAppendError>::Err(RemoteAppendError::StreamNotFound) && post
                == pre
        } else {
            put_outcome(
                pre,
                post,
                self.log_stream_name@,
                pre.streams@[k].token,
                timestamp,
                message,
                r,
            )
        }
    }

    /// Mirrors one message to the remote stream: re-reads the stream
    /// listing for the current sequence token, then sends a single event
    /// carrying `timestamp` and `message` tagged with that token. The
    /// token is never cached across calls.
    pub fn put_log(&self, group: &mut RemoteGroup, message: String, timestamp: i64) -> (r: Result<
        u64,
        RemoteAppendError,
    >)
        requires
            old(group).name@ == self.log_group_name@,
            stream_index(old(group).streams@, self.log_stream_name@) >= 0 ==> old(
                group,
            ).streams@[stream_index(old(group).streams@, self.log_stream_name@)].token < u64::MAX,
        ensures
            self.put_log_outcome(*old(group), *final(group), timestamp, message@, r),
    {
        let found = find_stream(&group.streams, self.log_stream_name.as_str());
        match found {
            None => Err(RemoteAppendError::StreamNotFound),
            Some(k) => {
                proof {
                    lemma_stream_index_props(group.streams@, self.log_stream_name@);
                }
                let observed = group.streams[k].token;
                group.put_events(self.log_stream_name.as_str(), observed, timestamp, message)
            },
        }
    }
}

/// Law: sequential mirrored appends chain their sequence tokens. When
/// two appends through one handle run back to back with no other writer,
/// the second observes exactly the token the first returned, and the
/// tokens advance one by one.
pub proof fn lemma_sequential_puts_chain_tokens(
    a: Aws,
    g0: RemoteGroup,
    g1: RemoteGroup,
    g2: RemoteGroup,
    ts1: i64,
    ts2: i64,
    m1: Seq<char>,
    m2: Seq<char>,
    t1: u64,
    t2: u64,
)
    requires
        a.put_log_outcome(g0, g1, ts1, m1, Ok(t1)),
        a.put_log_outcome(g1, g2, ts2, m2, Ok(t2)),
    ensures
        stream_index(g1.streams@, a.log_stream_name@) >= 0,
        g1.streams@[stream_index(g1.streams@, a.log_stream_name@)].token == t1,
        t2 == t1 + 1,
{
    let name = a.log_stream_name@;
    let k0 = stream_index(g0.streams@, name);
    lemma_stream_index_props(g0.streams@, name);
    assert(k0 >= 0);
    assert forall|j: int| 0 <= j < k0 implies g1.streams@[j].name@ != name by {
        assert(g1.streams@[j] == g0.streams@[j]);
    }
    lemma_stream_index_first(g1.streams@, name, k0);
}

/// One entry of the remote stream listing, as the describe call reports
/// it: the stream's name and its current sequence token, either of which
/// the service may omit.
pub struct StreamInfo {
    pub log_stream_name: Option<String>,
    pub upload_sequence_token: Option<String>,
}

/// Index of the first listing entry named `name`, or `-1`.
pub open spec fn info_index(streams: Seq<StreamInfo>, name: Seq<char>) -> int
    decreases streams.len(),
{
    if streams.len() == 0 {
        -1
    } else if streams[0].log_stream_name matches Some(n) && n@ == name {
        0
    } else {
        let rest = info_index(streams.drop_first(), name);
        if rest < 0 {
            -1
        } else {
            rest + 1
        }
    }
}

/// Whether a listing entry is named `name`.
pub open spec fn info_named(info: StreamInfo, name: Seq<char>) -> bool {
    info.log_stream_name matches Some(n) && n@ == name
}

/// A first match at `k` makes `info_index` return `k`.
proof fn lemma_info_index_first(streams: Seq<StreamInfo>, name: Seq<char>, k: int)
    requires
        0 <= k < streams.len(),
        info_named(streams[k], name),
        forall|j: int| 0 <= j < k ==> !info_named(#[trigger] streams[j], name),
    ensures
        info_index(streams, name) == k,
    decreases streams.len(),
{
    if k == 0 {
    } else {
        assert(!info_named(streams[0], name));
        assert forall|j: int| 0 <= j < k - 1 implies !info_named(
            #[trigger] streams.drop_first()[j],
            name,
        ) by {
            assert(streams.drop_first()[j] == streams[j + 1]);
        }
        assert(streams.drop_first()[k - 1] == streams[k]);
        lemma_info_index_first(streams.drop_first(), name, k - 1);
    }
}

/// No match anywhere makes `info_index` return `-1`.
proof fn lemma_info_index_none(streams: Seq<StreamInfo>, name: Seq<char>)
    requires
        forall|j: int| 0 <= j < streams.len() ==> !info_named(#[trigger] streams[j], name),
    ensures
        info_index(streams, name) == -1,
    decreases streams.len(),
{
    if streams.len() == 0 {
    } else {
        assert forall|j: int| 0 <= j < streams.drop_first().len() implies !info_named(
            #[trigger] streams.drop_first()[j],
            name,
        ) by {
            assert(streams.drop_first()[j] == streams[j + 1]);
        }
        lemma_info_index_none(streams.drop_first(), name);
    }
}

/// The computation between the two remote calls of the protocol: from
/// the stream listing the describe call returned, pick the entry whose
/// name matches and hand back its current sequence token — `None` when
/// the listing holds no such entry, `Some` of the entry's token (which
/// the service omits on a stream never appended to) otherwise.
pub fn select_stream_token(streams: &Vec<StreamInfo>, name: &str) -> (r: Option<Option<String>>)
    ensures
        info_index(streams@, name@) == -1 <==> r is None,
        info_index(streams@, name@) >= 0 ==> (r matches Some(t) && t
            == streams@[info_index(streams@, name@)].upload_sequence_token),
{
    let mut k: usize = 0;
    while k < streams.len()
        invariant
            k <= streams@.len(),
            forall|j: int| 0 <= j < k ==> !info_named(#[trigger] streams@[j], name@),
        decreases streams@.len() - k,
    {
        let matched = match &streams[k].log_stream_name {
            Some(n) => str_eq(n.as_str(), name),
            None => false,
        };
        if matched {
            proof {
                lemma_info_index_first(streams@, name@, k as int);
            }
            let token = match &streams[k].upload_sequence_token {
                Some(t) => Some(t.clone()),
                None => None,
            };
            return Some(token);
        }
        k += 1;
    }
    proof {
        lemma_info_index_none(streams@, name@);
    }
    None
}

} // verus!
