//! Handlers that remember what an upstream service told them.

use crate::error::{handled_view, FailureReason, FailureView, Handled};
use crate::regexmatch::{Asked, Handler};
use vstd::hash_map::StringHashMap;
use vstd::prelude::*;

verus! {

/// Texts remembered by key. An entry, once made, is never changed or dropped.
pub struct Cache {
    entries: StringHashMap<String>,
}

impl View for Cache {
    type V = Map<Seq<char>, Seq<char>>;

    closed spec fn view(&self) -> Map<Seq<char>, Seq<char>> {
        self.entries@.map_values(|text: String| text@)
    }
}

impl Cache {
    /// A cache without entries.
    pub fn new() -> (cache: Cache)
        ensures
            cache@ == Map::<Seq<char>, Seq<char>>::empty(),
    {
        let cache = Cache { entries: StringHashMap::new() };
        cache
    }

    /// The text remembered for `key`, if there is one.
    pub fn get(&self, key: &str) -> (found: Option<String>)
        ensures
            found is Some <==> self@.contains_key(key@),
            found matches Some(text) ==> text@ == self@[key@],
    {
        match self.entries.get(key) {
            Some(text) => Some(text.clone()),
            None => None,
        }
    }

    /// Takes note of what the upstream answered for `key`, and hands the
    /// answer on. A text is remembered under the key, unless the key has an
    /// entry already, which then stays. A failure leaves the cache as it was,
    /// so that the key is asked for again next time.
    pub fn record(&mut self, key: &str, fetched: Result<String, FailureReason>) -> (r: Result<
        String,
        FailureReason,
    >)
        ensures
            handled_view(r) == handled_view(fetched),
            fetched matches Ok(text) ==> (!old(self)@.contains_key(key@) ==> final(self)@
                == old(self)@.insert(key@, text@)),
            fetched is Err || old(self)@.contains_key(key@) ==> final(self)@ == old(self)@,
    {
        match fetched {
            Ok(text) => {
                if !self.entries.contains_key(key) {
                    self.entries.insert(key.to_owned(), text.clone());
                }
                Ok(text)
            },
            Err(reason) => Err(reason),
        }
    }
}

/// A handler in front of another, the upstream, which it asks at most once
/// for every key that the upstream has an answer to.
pub struct CachedHandler<H: Handler> {
    cache: Cache,
    upstream: H,
}

impl<H: Handler> CachedHandler<H> {
    /// What the handler remembers.
    pub closed spec fn known(&self) -> Map<Seq<char>, Seq<char>> {
        self.cache@
    }

    /// The upstream in its present state.
    pub closed spec fn source(&self) -> H {
        self.upstream
    }

    /// A handler in front of `upstream` that remembers nothing yet.
    pub fn new(upstream: H) -> (handler: Self)
        ensures
            handler.known() == Map::<Seq<char>, Seq<char>>::empty(),
            handler.source() == upstream,
    {
        CachedHandler { cache: Cache::new(), upstream }
    }

    /// The upstream in its present state.
    pub fn upstream(&self) -> (upstream: &H)
        ensures
            *upstream == self.source(),
    {
        &self.upstream
    }

    /// The text for `key`.
    ///
    /// A key that is remembered is answered from memory: the upstream is not
    /// touched. Any other key is fetched from the upstream, and what is
    /// returned is an answer that the upstream, as it stood, may give. A text
    /// that comes back is remembered under the key; a failure is handed on
    /// and nothing is remembered. Whatever happens, what was remembered
    /// before stays as it was, and whatever the handler may answer from now
    /// on, it might have answered, as it stood, after this call.
    pub fn lookup(&mut self, key: &str) -> (r: Result<String, FailureReason>)
        ensures
            old(self).known().contains_key(key@) ==> {
                &&& r matches Ok(text)
                &&& text@ == old(self).known()[key@]
                &&& final(self).known() == old(self).known()
                &&& final(self).source() == old(self).source()
            },
            !old(self).known().contains_key(key@) ==> match r {
                Ok(text) => final(self).known() == old(self).known().insert(key@, text@),
                Err(_) => final(self).known() == old(self).known(),
            },
            !old(self).known().contains_key(key@) ==> old(self).source().answers(
                Seq::<Asked>::empty(),
                key@,
                handled_view(r),
            ),
            old(self).answers(Seq::<Asked>::empty(), key@, handled_view(r)),
            forall|later: Seq<Asked>, c: Seq<char>, a: Handled| #[trigger]
                final(self).answers(later, c, a) ==> old(self).answers(
                    seq![(key@, handled_view(r))] + later,
                    c,
                    a,
                ),
            r matches Ok(text) ==> final(self).known().contains_key(key@) && final(self).known()[key@]
                == text@,
            forall|k: Seq<char>| #[trigger]
                old(self).known().contains_key(k) ==> final(self).known().contains_key(k)
                    && final(self).known()[k] == old(self).known()[k],
    {
        let ghost before = self.known();
        let r = match self.cache.get(key) {
            Some(text) => Ok(text),
            None => {
                let fetched = self.upstream.handle(key);
                self.cache.record(key, fetched)
            },
        };
        proof {
            let call = (key@, handled_view(r));
            assert(passed_on(before, Seq::<Asked>::empty()) =~= Seq::<Asked>::empty());
            assert forall|later: Seq<Asked>, c: Seq<char>, a: Handled| #[trigger]
                self.answers(later, c, a) implies old(self).answers(seq![call] + later, c, a) by {
                first_call(before, call, later);
                let carried = passed_on(self.known(), later);
                if before.contains_key(key@) {
                    assert(Seq::<Asked>::empty() + carried =~= carried);
                } else if !known_after(self.known(), later).contains_key(c) {
                    assert(self.source().answers(carried, c, a));
                }
            }
        }
        r
    }
}

/// What a cache that starts as `known` holds after the calls of `earlier`:
/// every text that came back for a key that had none is remembered.
pub open spec fn known_after(known: Map<Seq<char>, Seq<char>>, earlier: Seq<Asked>) -> Map<
    Seq<char>,
    Seq<char>,
>
    decreases earlier.len(),
{
    if earlier.len() == 0 {
        known
    } else {
        let before = known_after(known, earlier.drop_last());
        match earlier.last().1 {
            Ok(text) => if before.contains_key(earlier.last().0) {
                before
            } else {
                before.insert(earlier.last().0, text)
            },
            Err(_) => before,
        }
    }
}

/// The calls of `earlier` that a cache that starts as `known` passes on to
/// its upstream, in order: those for keys that are not remembered by then.
pub open spec fn passed_on(known: Map<Seq<char>, Seq<char>>, earlier: Seq<Asked>) -> Seq<Asked>
    decreases earlier.len(),
{
    if earlier.len() == 0 {
        Seq::<Asked>::empty()
    } else if known_after(known, earlier.drop_last()).contains_key(earlier.last().0) {
        passed_on(known, earlier.drop_last())
    } else {
        passed_on(known, earlier.drop_last()).push(earlier.last())
    }
}

/// What one call makes of a cache that holds `known`.
pub open spec fn known_next(known: Map<Seq<char>, Seq<char>>, call: Asked) -> Map<
    Seq<char>,
    Seq<char>,
> {
    known_after(known, seq![call])
}

/// A run of calls that begins with `call` is that call and then the rest of
/// the run on the cache as the call left it.
pub proof fn first_call(known: Map<Seq<char>, Seq<char>>, call: Asked, later: Seq<Asked>)
    ensures
        known_next(known, call) == (match call.1 {
            Ok(text) => if known.contains_key(call.0) {
                known
            } else {
                known.insert(call.0, text)
            },
            Err(_) => known,
        }),
        known_after(known, seq![call] + later) == known_after(known_next(known, call), later),
        passed_on(known, seq![call] + later) == if known.contains_key(call.0) {
            passed_on(known_next(known, call), later)
        } else {
            seq![call] + passed_on(known_next(known, call), later)
        },
    decreases later.len(),
{
    let whole = seq![call] + later;
    assert(seq![call].drop_last() =~= Seq::<Asked>::empty());
    reveal_with_fuel(known_after, 2);
    reveal_with_fuel(passed_on, 2);
    if later.len() == 0 {
        assert(whole =~= seq![call]);
        assert(passed_on(known, seq![call]) =~= if known.contains_key(call.0) {
            Seq::<Asked>::empty()
        } else {
            seq![call]
        });
        assert(seq![call] + Seq::<Asked>::empty() =~= seq![call]);
    } else {
        first_call(known, call, later.drop_last());
        assert(whole.drop_last() =~= seq![call] + later.drop_last());
        assert(whole.last() == later.last());
        let rest = passed_on(known_next(known, call), later.drop_last());
        assert((seq![call] + rest).push(later.last()) =~= seq![call] + rest.push(later.last()));
    }
}

impl<H: Handler> Handler for CachedHandler<H> {
    /// After the calls of `earlier`, a capture that is remembered by then is
    /// answered with the remembered text and nothing else; any other capture
    /// is answered as the upstream answers it after the calls that were
    /// passed on to it.
    open spec fn answers(&self, earlier: Seq<Asked>, capture: Seq<char>, answer: Handled) -> bool {
        let known = known_after(self.known(), earlier);
        if known.contains_key(capture) {
            answer == Ok::<Seq<char>, FailureView>(known[capture])
        } else {
            self.source().answers(passed_on(self.known(), earlier), capture, answer)
        }
    }

    /// Looks the capture up, as `lookup` does.
    fn handle(&mut self, capture: &str) -> (r: Result<String, FailureReason>)
        ensures
            old(self).known().contains_key(capture@) ==> {
                &&& r matches Ok(text)
                &&& text@ == old(self).known()[capture@]
                &&& final(self).known() == old(self).known()
                &&& final(self).source() == old(self).source()
            },
            !old(self).known().contains_key(capture@) ==> match r {
                Ok(text) => final(self).known() == old(self).known().insert(capture@, text@),
                Err(_) => final(self).known() == old(self).known(),
            },
    {
        self.lookup(capture)
    }
}

} // verus!
