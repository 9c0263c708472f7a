//! The decisions taken while a link is created. The store is outside the
//! library: a `CreateUrl` says which code to insert next, is told how the
//! insert went, and says what to answer once it is done.

use vstd::prelude::*;

use crate::backend::{
    alias_refusal, short_link, short_link_of, url_refusal, validate_alias, validate_url,
    CreateUrlError, CreateUrlRequest,
};
use crate::codec::{code_of, code_value, encode, lemma_code_len, lemma_code_value, pow62, CODE_LEN};

verus! {

/// How many generated codes are tried before giving up.
pub const MAX_RETRIES: usize = 5;

/// How the store answered an insert.
pub enum InsertOutcome {
    /// The link is stored under this code.
    Stored(String),
    /// The code is already in use.
    Conflict,
    /// The store failed.
    Failed,
}

/// What to do next.
pub enum Step {
    /// Insert the link under this code.
    Insert(String),
    /// Draw a fresh id and hand it to `generated` (or call `generate`).
    Generate,
    /// Answer the request with this.
    Reply(Result<String, CreateUrlError>),
}

/// Where a creation stands.
pub enum Phase {
    /// Waiting for the outcome of an insert.
    Inserting,
    /// Waiting for a fresh id.
    Generating,
    /// Answered.
    Done,
}

/// The state of a creation as the contracts see it.
pub struct FlowView {
    /// The base address of the short links.
    pub base: Seq<char>,
    /// Whether the request named its own alias.
    pub custom_alias: bool,
    /// How many inserts were asked for so far.
    pub attempts: nat,
    pub phase: Phase,
}

/// One creation of a short link, from the checks to the answer.
pub struct CreateUrl {
    base: String,
    custom_alias: bool,
    attempts: usize,
    phase: Phase,
}

impl View for CreateUrl {
    type V = FlowView;

    closed spec fn view(&self) -> FlowView {
        FlowView {
            base: self.base@,
            custom_alias: self.custom_alias,
            attempts: self.attempts as nat,
            phase: self.phase,
        }
    }
}

/// The number of distinct six-symbol codes.
pub open spec fn id_space() -> nat {
    pow62(CODE_LEN as nat)
}

/// A creation asks for `MAX_RETRIES` inserts at most, and for one at
/// most when it uses the request's own alias.
pub open spec fn bounded(v: FlowView) -> bool {
    &&& v.attempts <= MAX_RETRIES
    &&& v.custom_alias ==> v.attempts <= 1
}

/// The platform's `usize` can hold every six-symbol id.
pub open spec fn id_space_fits() -> bool {
    id_space() <= usize::MAX
}

/// Draws an id below `bound`.
///
/// Trusted: calls `fastrand::usize` on the range `0..bound`, which returns
/// a number of that range (it panics only on an empty range, which
/// `requires` leaves out). Which number comes is chance: the contract says
/// only that it lies in the range.
#[verifier::external_body]
fn random_below(bound: usize) -> (r: usize)
    requires
        bound > 0,
    ensures
        r < bound,
{
    fastrand::usize(0..bound)
}

/// `r` is a value that a draw below `bound` gave back.
pub closed spec fn drawn(bound: nat, r: usize) -> bool {
    bound <= usize::MAX && call_ensures(random_below, (bound as usize,), r)
}

/// A value drawn below `bound` is below it.
pub proof fn lemma_drawn_below(bound: nat, r: usize)
    requires
        drawn(bound, r),
    ensures
        r < bound,
{
}

/// The code of a drawn id has six symbols and reads back as that id, so
/// different draws ask for different codes.
pub proof fn lemma_drawn_code(id: usize)
    requires
        drawn(id_space(), id),
    ensures
        code_of(id as nat).len() == CODE_LEN,
        code_value(code_of(id as nat)) == id,
{
    lemma_drawn_below(id_space(), id);
    lemma_code_len(id as nat);
    lemma_code_value(id as nat);
}

/// Returns 62 to the sixth, the number of six-symbol codes.
fn id_space_size() -> (n: usize)
    requires
        id_space_fits(),
    ensures
        n == id_space(),
{
    proof {
        reveal_with_fuel(pow62, 7);
    }
    let mut n: usize = 1;
    let mut k: usize = 0;
    while k < CODE_LEN
        invariant
            k <= CODE_LEN,
            n == pow62(k as nat),
            id_space_fits(),
        decreases CODE_LEN - k,
    {
        proof {
            lemma_pow62_monotone((k + 1) as nat, CODE_LEN as nat);
        }
        n = n * 62;
        k = k + 1;
    }
    n
}

/// Powers of 62 grow with the exponent.
proof fn lemma_pow62_monotone(a: nat, b: nat)
    requires
        a <= b,
    ensures
        pow62(a) <= pow62(b),
    decreases b - a,
{
    if a < b {
        lemma_pow62_monotone(a, (b - 1) as nat);
    }
}

/// Checks a request and sets out to create its link under `base`. A
/// bad link, then a bad alias, is answered at once; a good alias is to
/// be inserted as it is; without an alias a fresh id is wanted.
pub fn create_url(request: &CreateUrlRequest, base: &str) -> (r: (CreateUrl, Step))
    ensures
        bounded(r.0@),
        r.0@.base == base@,
        r.0@.custom_alias == request.alias is Some,
        url_refusal(request.url@) matches Some(m) ==> {
            &&& r.1 matches Step::Reply(Err(CreateUrlError::BadRequest(t))) && t@ == m
            &&& r.0@.phase is Done
            &&& r.0@.attempts == 0
        },
        url_refusal(request.url@) is None ==> match request.alias {
            Some(a) => match alias_refusal(a@) {
                Some(m) => {
                    &&& r.1 matches Step::Reply(Err(CreateUrlError::BadRequest(t))) && t@ == m
                    &&& r.0@.phase is Done
                    &&& r.0@.attempts == 0
                },
                None => {
                    &&& r.1 matches Step::Insert(h) && h@ == a@
                    &&& r.0@.phase is Inserting
                    &&& r.0@.attempts == 1
                },
            },
            None => {
                &&& r.1 is Generate
                &&& r.0@.phase is Generating
                &&& r.0@.attempts == 0
            },
        },
{
    let custom_alias = request.alias.is_some();
    let flow_base = String::from_str(base);
    match validate_url(request.url.as_str()) {
        Err(e) => {
            let flow = CreateUrl { base: flow_base, custom_alias, attempts: 0, phase: Phase::Done };
            return (flow, Step::Reply(Err(e)));
        },
        Ok(()) => {},
    }
    match &request.alias {
        Some(alias) => match validate_alias(alias.as_str()) {
            Err(e) => {
                let flow = CreateUrl {
                    base: flow_base,
                    custom_alias,
                    attempts: 0,
                    phase: Phase::Done,
                };
                (flow, Step::Reply(Err(e)))
            },
            Ok(()) => {
                let flow = CreateUrl {
                    base: flow_base,
                    custom_alias,
                    attempts: 1,
                    phase: Phase::Inserting,
                };
                (flow, Step::Insert(alias.clone()))
            },
        },
        None => {
            let flow = CreateUrl {
                base: flow_base,
                custom_alias,
                attempts: 0,
                phase: Phase::Generating,
            };
            (flow, Step::Generate)
        },
    }
}

impl CreateUrl {
    #[verifier::type_invariant]
    spec fn well_formed(self) -> bool {
        &&& self.attempts <= MAX_RETRIES
        &&& self.custom_alias ==> self.attempts <= 1
        &&& self.phase is Generating ==> !self.custom_alias && self.attempts < MAX_RETRIES
    }

    /// Takes the fresh id `id`: its short code is to be inserted next.
    pub fn generated(&mut self, id: usize) -> (step: Step)
        requires
            old(self)@.phase is Generating,
        ensures
            step matches Step::Insert(h) && h@ == code_of(id as nat),
            bounded(final(self)@),
            final(self)@.base == old(self)@.base,
            final(self)@.custom_alias == old(self)@.custom_alias,
            final(self)@.attempts == old(self)@.attempts + 1,
            final(self)@.phase is Inserting,
    {
        proof {
            use_type_invariant(&*self);
        }
        let hash = encode(id);
        self.phase = Phase::Inserting;
        self.attempts = self.attempts + 1;
        Step::Insert(hash)
    }

    /// Draws a fresh id from the whole range below 62 to the sixth; the
    /// code of the id drawn, six symbols long, is to be inserted next.
    pub fn generate(&mut self) -> (step: Step)
        requires
            old(self)@.phase is Generating,
            id_space_fits(),
        ensures
            exists|id: usize|
                #[trigger] drawn(id_space(), id) && (step matches Step::Insert(h) && h@ == code_of(
                    id as nat,
                )),
            exists|id: nat|
                id < id_space() && (step matches Step::Insert(h) && h@ == #[trigger] code_of(id)),
            bounded(final(self)@),
            final(self)@.base == old(self)@.base,
            final(self)@.custom_alias == old(self)@.custom_alias,
            final(self)@.attempts == old(self)@.attempts + 1,
            final(self)@.phase is Inserting,
    {
        let bound: usize = id_space_size();
        proof {
            lemma_pow62_monotone(0, CODE_LEN as nat);
        }
        let id: usize = random_below(bound);
        assert(call_ensures(random_below, (bound,), id));
        assert(drawn(id_space(), id));
        let step = self.generated(id);
        assert(step matches Step::Insert(h) && h@ == code_of(id as nat));
        step
    }

    /// Takes the outcome of the last insert. A stored code is answered with
    /// its short link; a failure of the store with an internal error. A
    /// code in use is answered `AliasTaken` when it was the request's own
    /// alias; a generated one is replaced by a fresh one until
    /// `MAX_RETRIES` were tried, then the answer is an internal error.
    pub fn inserted(&mut self, outcome: InsertOutcome) -> (step: Step)
        requires
            old(self)@.phase is Inserting,
        ensures
            bounded(final(self)@),
            final(self)@.base == old(self)@.base,
            final(self)@.custom_alias == old(self)@.custom_alias,
            final(self)@.attempts == old(self)@.attempts,
            match outcome {
                InsertOutcome::Stored(hash) => {
                    &&& step matches Step::Reply(Ok(link)) && link@ == short_link_of(
                        old(self)@.base,
                        hash@,
                    )
                    &&& final(self)@.phase is Done
                },
                InsertOutcome::Conflict => if old(self)@.custom_alias {
                    &&& step matches Step::Reply(Err(CreateUrlError::AliasTaken))
                    &&& final(self)@.phase is Done
                } else if old(self)@.attempts < MAX_RETRIES {
                    &&& step is Generate
                    &&& final(self)@.phase is Generating
                } else {
                    &&& step matches Step::Reply(Err(CreateUrlError::Internal))
                    &&& final(self)@.phase is Done
                },
                InsertOutcome::Failed => {
                    &&& step matches Step::Reply(Err(CreateUrlError::Internal))
                    &&& final(self)@.phase is Done
                },
            },
    {
        proof {
            use_type_invariant(&*self);
        }
        match outcome {
            InsertOutcome::Stored(hash) => {
                self.phase = Phase::Done;
                Step::Reply(Ok(short_link(self.base.as_str(), hash.as_str())))
            },
            InsertOutcome::Conflict => {
                if self.custom_alias {
                    self.phase = Phase::Done;
                    Step::Reply(Err(CreateUrlError::AliasTaken))
                } else if self.attempts < MAX_RETRIES {
                    self.phase = Phase::Generating;
                    Step::Generate
                } else {
                    self.phase = Phase::Done;
                    Step::Reply(Err(CreateUrlError::Internal))
                }
            },
            InsertOutcome::Failed => {
                self.phase = Phase::Done;
                Step::Reply(Err(CreateUrlError::Internal))
            },
        }
    }
}

} // verus!
