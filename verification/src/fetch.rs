//! Fetching game records: how ids are grouped into requests, how each request
//! address is written, and when a request is tried again.
//!
//! The network and the clock stay with the caller. For each group of ids the
//! caller asks a [`ChunkFetch`] whether to send the request, sends it, and
//! reports how it went; the answer says how long to pause before trying again.
use vstd::prelude::*;
use crate::bgg_url::{lemma_split_on_concat, lemma_split_on_no_sep, split_on};
use crate::text::{decimal, law_decimal_notation, push_decimal};

verus! {

/// The most ids asked for in one request.
pub const CHUNK_SIZE: usize = 20;

/// The most times one request is sent.
pub const MAX_ATTEMPTS: u32 = 5;

/// `ids` cut into consecutive groups of [`CHUNK_SIZE`], the last one possibly
/// shorter.
pub open spec fn chunks_of(ids: Seq<u32>) -> Seq<Seq<u32>>
    decreases ids.len(),
{
    if ids.len() == 0 {
        Seq::empty()
    } else if ids.len() <= 20 {
        seq![ids]
    } else {
        seq![ids.take(20)] + chunks_of(ids.skip(20))
    }
}

/// The groups of ids sent in one request each, in order.
pub fn id_chunks(ids: &Vec<u32>) -> (r: Vec<Vec<u32>>)
    ensures
        r@.map_values(|c: Vec<u32>| c@) == chunks_of(ids@),
{
    let n = ids.len();
    let mut r: Vec<Vec<u32>> = Vec::new();
    let mut start: usize = 0;
    assert(ids@.skip(0) =~= ids@);
    assert(r@.map_values(|c: Vec<u32>| c@) + chunks_of(ids@.skip(0)) =~= chunks_of(ids@));
    while start < n
        invariant
            n == ids@.len(),
            start <= n,
            r@.map_values(|c: Vec<u32>| c@) + chunks_of(ids@.skip(start as int)) == chunks_of(ids@),
        decreases n - start,
    {
        let end = if n - start > CHUNK_SIZE { start + CHUNK_SIZE } else { n };
        let mut chunk: Vec<u32> = Vec::new();
        let mut k: usize = start;
        while k < end
            invariant
                n == ids@.len(),
                start <= k <= end <= n,
                chunk@ == ids@.subrange(start as int, k as int),
            decreases end - k,
        {
            chunk.push(ids[k]);
            assert(ids@.subrange(start as int, k + 1) =~= ids@.subrange(start as int, k as int).push(ids@[k as int]));
            k = k + 1;
        }
        let ghost rest = ids@.skip(start as int);
        let ghost old_r = r@;
        r.push(chunk);
        assert(r@.map_values(|c: Vec<u32>| c@) =~= old_r.map_values(|c: Vec<u32>| c@).push(ids@.subrange(start as int, end as int)));
        if n - start > CHUNK_SIZE {
            assert(rest.take(20) =~= ids@.subrange(start as int, end as int));
            assert(rest.skip(20) =~= ids@.skip(end as int));
            assert(chunks_of(rest) == seq![rest.take(20)] + chunks_of(rest.skip(20)));
        } else {
            assert(rest =~= ids@.subrange(start as int, end as int));
            assert(ids@.skip(end as int) =~= Seq::<u32>::empty());
            assert(chunks_of(rest) == seq![rest]);
        }
        assert(r@.map_values(|c: Vec<u32>| c@) + chunks_of(ids@.skip(end as int)) =~= chunks_of(ids@));
        start = end;
    }
    assert(ids@.skip(n as int) =~= Seq::<u32>::empty());
    assert(r@.map_values(|c: Vec<u32>| c@) =~= chunks_of(ids@));
    r
}

/// Joining the groups of ids back together gives the ids, and every group holds
/// between one and [`CHUNK_SIZE`] ids.
pub proof fn law_chunks_partition(ids: Seq<u32>)
    ensures
        chunks_of(ids).flatten() == ids,
        forall|k: int| 0 <= k < chunks_of(ids).len() ==> 1 <= #[trigger] chunks_of(ids)[k].len() <= 20,
    decreases ids.len(),
{
    if ids.len() == 0 {
        assert(chunks_of(ids).flatten() =~= ids);
    } else if ids.len() <= 20 {
        assert(seq![ids].drop_first() =~= Seq::<Seq<u32>>::empty());
        assert(seq![ids].flatten() == ids + Seq::<Seq<u32>>::empty().flatten());
        assert(chunks_of(ids).flatten() =~= ids);
    } else {
        law_chunks_partition(ids.skip(20));
        let c = chunks_of(ids);
        assert(c.drop_first() =~= chunks_of(ids.skip(20)));
        assert(c.flatten() == ids.take(20) + chunks_of(ids.skip(20)).flatten());
        assert(ids.take(20) + ids.skip(20) =~= ids);
        assert forall|k: int| 0 <= k < c.len() implies 1 <= #[trigger] c[k].len() <= 20 by {
            if k > 0 {
                assert(c[k] == chunks_of(ids.skip(20))[k - 1]);
            }
        }
    }
}

/// The ids of a group in decimal, separated by commas.
pub open spec fn joined_ids(ids: Seq<u32>) -> Seq<char>
    decreases ids.len(),
{
    if ids.len() == 0 {
        Seq::empty()
    } else if ids.len() == 1 {
        decimal(ids[0] as nat)
    } else {
        joined_ids(ids.drop_last()) + ","@ + decimal(ids.last() as nat)
    }
}

/// The API address that asks for the records, with statistics, of the games
/// with the given ids.
pub open spec fn thing_url_spec(ids: Seq<u32>) -> Seq<char> {
    "https://boardgamegeek.com/xmlapi2/thing?id="@ + joined_ids(ids) + "&stats=1"@
}

/// The API address that asks for the records, with statistics, of the games
/// with the given ids.
pub fn thing_url(ids: &Vec<u32>) -> (url: String)
    ensures
        url@ == thing_url_spec(ids@),
{
    let mut url = String::from_str("https://boardgamegeek.com/xmlapi2/thing?id=");
    let ghost head = url@;
    let n = ids.len();
    let mut i: usize = 0;
    assert(ids@.take(0) =~= Seq::<u32>::empty());
    assert(url@ =~= head + joined_ids(ids@.take(0)));
    while i < n
        invariant
            n == ids@.len(),
            i <= n,
            head == "https://boardgamegeek.com/xmlapi2/thing?id="@,
            url@ == head + joined_ids(ids@.take(i as int)),
        decreases n - i,
    {
        assert(ids@.take(i + 1).drop_last() =~= ids@.take(i as int));
        assert(ids@.take(i + 1).last() == ids@[i as int]);
        if i > 0 {
            url.append(",");
        }
        push_decimal(&mut url, ids[i]);
        if i == 0 {
            assert(ids@.take(1) =~= seq![ids@[0]]);
        }
        assert(url@ =~= head + joined_ids(ids@.take(i + 1)));
        i = i + 1;
    }
    assert(ids@.take(n as int) =~= ids@);
    url.append("&stats=1");
    url
}

/// The text between `thing?id=` and `&stats=1` of a request, cut at its
/// commas, is the decimal notation of each id of the group, one piece per id,
/// in order; a group without ids leaves that text empty.
pub proof fn law_thing_url_lists_every_id(ids: Seq<u32>)
    ensures
        ({
            let url = thing_url_spec(ids);
            let pre = "https://boardgamegeek.com/xmlapi2/thing?id="@;
            let suf = "&stats=1"@;
            let mid = url.subrange(pre.len() as int, url.len() - suf.len());
            &&& pre.len() + suf.len() <= url.len()
            &&& url.subrange(0, pre.len() as int) == pre
            &&& url.subrange(url.len() - suf.len(), url.len() as int) == suf
            &&& ids.len() > 0 ==> split_on(mid, ',') == ids.map_values(|n: u32| decimal(n as nat))
            &&& ids.len() == 0 ==> mid.len() == 0
        }),
{
    let url = thing_url_spec(ids);
    let pre = "https://boardgamegeek.com/xmlapi2/thing?id="@;
    let suf = "&stats=1"@;
    let j = joined_ids(ids);
    assert(url == pre + j + suf);
    assert(url.subrange(0, pre.len() as int) =~= pre);
    assert(url.subrange(url.len() - suf.len(), url.len() as int) =~= suf);
    assert(url.subrange(pre.len() as int, url.len() - suf.len()) =~= j);
    if ids.len() > 0 {
        lemma_joined_ids_split(ids);
    } else {
        assert(j.len() == 0);
    }
}

/// Cutting the joined ids at their commas gives back each id's notation.
proof fn lemma_joined_ids_split(ids: Seq<u32>)
    requires
        ids.len() > 0,
    ensures
        split_on(joined_ids(ids), ',') == ids.map_values(|n: u32| decimal(n as nat)),
    decreases ids.len(),
{
    reveal_strlit(",");
    let last = decimal(ids.last() as nat);
    law_decimal_notation(ids.last() as nat);
    assert forall|i: int| 0 <= i < last.len() implies last[i] != ',' by {
        assert('0' <= last[i] <= '9');
    }
    lemma_split_on_no_sep(last, ',');
    if ids.len() == 1 {
        assert(ids.map_values(|n: u32| decimal(n as nat)) =~= seq![last]);
    } else {
        lemma_joined_ids_split(ids.drop_last());
        assert(joined_ids(ids) == joined_ids(ids.drop_last()) + seq![','] + last);
        lemma_split_on_concat(joined_ids(ids.drop_last()), last, ',');
        assert(ids.map_values(|n: u32| decimal(n as nat)) =~= ids.drop_last().map_values(|n: u32| decimal(n as nat)) + seq![last]);
    }
}

/// How the API answered a request.
#[derive(Clone, Copy, Debug, PartialEq, Eq, Structural)]
pub enum StatusKind {
    /// `200 OK`: the answer holds the records.
    Success,
    /// `202 Accepted`: the records are being prepared; ask again later.
    Accepted,
    /// Any other status.
    Failed,
}

/// The kind of an HTTP status code.
pub fn classify_status(status: u16) -> (k: StatusKind)
    ensures
        status == 200 ==> k == StatusKind::Success,
        status == 202 ==> k == StatusKind::Accepted,
        status != 200 && status != 202 ==> k == StatusKind::Failed,
{
    if status == 200 {
        StatusKind::Success
    } else if status == 202 {
        StatusKind::Accepted
    } else {
        StatusKind::Failed
    }
}

/// Whether a response that arrived is sent again as a transient failure: only
/// `202 Accepted` is.
pub fn retry_on_status(status: u16) -> (r: bool)
    ensures
        r == (status == 202),
{
    status == 202
}

/// Whether a header value is exactly `HIT`.
pub open spec fn is_hit(v: Seq<u8>) -> bool {
    v == seq![72u8, 73u8, 84u8]
}

fn bytes_are_hit(v: &[u8]) -> (r: bool)
    ensures
        r == is_hit(v@),
{
    if v.len() != 3 {
        return false;
    }
    let r = v[0] == 72u8 && v[1] == 73u8 && v[2] == 84u8;
    if r {
        assert(v@ =~= seq![72u8, 73u8, 84u8]);
    }
    r
}

/// Whether the response came from the local cache, told by its `x-cache` and
/// `x-cache-lookup` headers: `None` when one of them is missing, otherwise
/// whether both are `HIT`.
pub fn cache_hit(x_cache: Option<&[u8]>, x_cache_lookup: Option<&[u8]>) -> (r: Option<bool>)
    ensures
        r == (match (x_cache, x_cache_lookup) {
            (Some(a), Some(b)) => Some(is_hit(a@) && is_hit(b@)),
            _ => None,
        }),
{
    match (x_cache, x_cache_lookup) {
        (Some(a), Some(b)) => Some(bytes_are_hit(a) && bytes_are_hit(b)),
        _ => None,
    }
}

/// `2` raised to `n`: the pause, in seconds, after `n` failed tries.
pub open spec fn backoff(n: nat) -> nat
    decreases n,
{
    if n == 0 {
        1
    } else {
        2 * backoff((n - 1) as nat)
    }
}

/// How one try of a request went.
#[derive(Clone, Copy, Debug, PartialEq, Eq, Structural)]
pub enum Attempt {
    /// The API answered `202 Accepted`.
    Accepted,
    /// The answer could not be read as game records.
    Unparsable,
    /// The answer was read; `cache` tells whether it came from the local cache,
    /// when the response said so (see [`cache_hit`]).
    Parsed { cache: Option<bool> },
}

/// What to do with an answer once its status is known.
#[derive(Clone, Copy, Debug, PartialEq, Eq, Structural)]
pub enum StatusStep {
    /// `202 Accepted`: pause this many seconds, then ask again; the body is not
    /// read.
    Pause(u64),
    /// Read the body as game records, whatever the status; `failed` tells
    /// whether the status was other than `200 OK`, to be reported.
    ReadBody { failed: bool },
}

/// The state of fetching one group of ids.
#[derive(Clone, Copy, Debug)]
pub struct ChunkFetch {
    /// Tries made so far.
    pub attempts: u32,
    /// The pause, in seconds, after the next failed try.
    pub delay: u64,
    /// Whether the records came from the local cache.
    pub cached: bool,
    /// Whether the records were read.
    pub finished: bool,
}

impl ChunkFetch {
    /// At most [`MAX_ATTEMPTS`] tries were made, and the next pause is `2` to
    /// the number of failed tries (every try but a last successful one).
    pub open spec fn wf(&self) -> bool {
        &&& self.attempts <= 5
        &&& self.finished ==> self.attempts >= 1
        &&& self.delay == backoff((if self.finished {
            self.attempts - 1
        } else {
            self.attempts as int
        }) as nat)
    }

    /// Whether the request is to be sent (again).
    pub open spec fn wants_request(&self) -> bool {
        !self.finished && self.attempts < 5
    }

    /// Nothing tried yet; the first pause is one second.
    pub fn new() -> (f: ChunkFetch)
        ensures
            f.wf(),
            f.attempts == 0,
            f.delay == 1,
            !f.cached,
            !f.finished,
    {
        ChunkFetch { attempts: 0, delay: 1, cached: false, finished: false }
    }

    /// Whether the request is to be sent (again): the records were not read
    /// yet and fewer than [`MAX_ATTEMPTS`] tries were made.
    pub fn should_request(&self) -> (r: bool)
        ensures
            r == self.wants_request(),
    {
        !self.finished && self.attempts < MAX_ATTEMPTS
    }

    /// Records how a try went. After a failed try it gives the pause, in
    /// seconds, before the next one, and doubles the pause after that; after a
    /// successful try it gives `None` and no further try is wanted.
    pub fn record(&mut self, a: Attempt) -> (pause: Option<u64>)
        requires
            old(self).wf(),
            old(self).wants_request(),
        ensures
            final(self).wf(),
            final(self).attempts == old(self).attempts + 1,
            match a {
                Attempt::Parsed { cache } => {
                    &&& pause is None
                    &&& final(self).finished
                    &&& final(self).delay == old(self).delay
                    &&& final(self).cached == match cache {
                        Some(hit) => hit,
                        None => old(self).cached,
                    }
                },
                _ => {
                    &&& pause == Some(old(self).delay)
                    &&& !final(self).finished
                    &&& final(self).delay == 2 * old(self).delay
                    &&& final(self).cached == old(self).cached
                },
            },
    {
        proof {
            lemma_backoff_bound(self.attempts as nat);
        }
        self.attempts = self.attempts + 1;
        match a {
            Attempt::Parsed { cache } => {
                self.finished = true;
                if let Some(hit) = cache {
                    self.cached = hit;
                }
                None
            },
            _ => {
                let d = self.delay;
                self.delay = d * 2;
                Some(d)
            },
        }
    }

    /// Decides what to do with an answer of the given status. `202 Accepted`
    /// counts as a failed try: it gives the pause before the next try. Any
    /// other answer is read, and the caller then records how reading went.
    pub fn on_status(&mut self, status: u16) -> (step: StatusStep)
        requires
            old(self).wf(),
            old(self).wants_request(),
        ensures
            final(self).wf(),
            status == 202 ==> {
                &&& step == StatusStep::Pause(old(self).delay)
                &&& final(self).attempts == old(self).attempts + 1
                &&& final(self).delay == 2 * old(self).delay
                &&& final(self).cached == old(self).cached
                &&& !final(self).finished
            },
            status != 202 ==> {
                &&& step == StatusStep::ReadBody { failed: status != 200 }
                &&& *final(self) == *old(self)
            },
    {
        match classify_status(status) {
            StatusKind::Accepted => {
                let pause = self.record(Attempt::Accepted);
                match pause {
                    Some(d) => StatusStep::Pause(d),
                    None => StatusStep::Pause(0),
                }
            },
            StatusKind::Success => StatusStep::ReadBody { failed: false },
            StatusKind::Failed => StatusStep::ReadBody { failed: true },
        }
    }

    /// Whether to pause a second before the next group, to spare the API:
    /// unless the records came from the local cache.
    pub fn wait_before_next(&self) -> (r: bool)
        ensures
            r == !self.cached,
    {
        !self.cached
    }
}

/// The pauses stay small: at most 16 seconds before the fifth try.
proof fn lemma_backoff_bound(n: nat)
    requires
        n <= 5,
    ensures
        backoff(n) <= 32,
        n < 5 ==> backoff(n) <= 16,
{
    reveal_with_fuel(backoff, 6);
}

/// The pauses of a group whose tries all fail are 1, 2, 4, 8 and 16 seconds,
/// and no sixth try is made.
pub proof fn law_backoff_sequence()
    ensures
        backoff(0) == 1,
        backoff(1) == 2,
        backoff(2) == 4,
        backoff(3) == 8,
        backoff(4) == 16,
        forall|f: ChunkFetch| #[trigger] f.wf() && f.attempts == 5 ==> !f.wants_request(),
{
    reveal_with_fuel(backoff, 5);
}

} // verus!
