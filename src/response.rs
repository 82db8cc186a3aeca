//! The uniform envelope in which every operation's result is sent: a status,
//! and either the data or the descriptions of the failure's cause chain.
use vstd::prelude::*;
use crate::http_status::ResponseStatusCode;

verus! {

/// The text of each string, in order.
pub open spec fn texts(v: Seq<String>) -> Seq<Seq<char>> {
    v.map_values(|s: String| s@)
}

/// A failure that can describe itself and each of its causes.
pub trait CauseChain {
    /// The descriptions, the failure's own first, then each cause down to
    /// the root.
    spec fn chain_spec(&self) -> Seq<Seq<char>>;

    fn cause_chain(&self) -> (r: Vec<String>)
        ensures
            texts(r@) == self.chain_spec(),
    ;
}

/// A chain that starts with `head` and goes on with `causes`.
pub fn chain_of(head: &str, causes: &Vec<String>) -> (r: Vec<String>)
    ensures
        texts(r@) == seq![head@] + texts(causes@),
{
    let mut r: Vec<String> = Vec::new();
    r.push(String::from_str(head));
    let mut i: usize = 0;
    while i < causes.len()
        invariant
            i <= causes@.len(),
            texts(r@) == seq![head@] + texts(causes@.take(i as int)),
        decreases causes@.len() - i,
    {
        let ghost before = r@;
        r.push(causes[i].clone());
        assert(causes@.take(i + 1) =~= causes@.take(i as int).push(causes@[i as int]));
        assert(texts(r@) =~= texts(before).push(causes@[i as int]@));
        assert(texts(causes@.take(i + 1)) =~= texts(causes@.take(i as int)).push(causes@[i as int]@));
        i = i + 1;
    }
    assert(causes@.take(i as int) =~= causes@);
    r
}

/// A walk down a failure's cause chain, one description at a time.
pub struct ErrorChain {
    causes: Vec<String>,
    pos: usize,
}

impl ErrorChain {
    /// The descriptions that the walk has still to give.
    pub closed spec fn rest(&self) -> Seq<Seq<char>> {
        texts(self.causes@).skip(self.pos as int)
    }

    pub closed spec fn wf(&self) -> bool {
        self.pos <= self.causes@.len()
    }

    pub fn new<E: CauseChain>(main: &E) -> (r: Self)
        ensures
            r.wf(),
            r.rest() == main.chain_spec(),
    {
        let causes = main.cause_chain();
        let r = ErrorChain { causes, pos: 0 };
        assert(r.rest() =~= texts(r.causes@));
        r
    }

    /// The next description, or `None` once the root cause was given.
    pub fn next(&mut self) -> (r: Option<String>)
        requires
            old(self).wf(),
        ensures
            final(self).wf(),
            old(self).rest().len() == 0 ==> r is None && final(self).rest() == old(self).rest(),
            old(self).rest().len() > 0 ==> (r matches Some(s) && s@ == old(self).rest()[0]
                && final(self).rest() == old(self).rest().skip(1)),
    {
        if self.pos < self.causes.len() {
            let s = self.causes[self.pos].clone();
            self.pos = self.pos + 1;
            assert(final(self).rest() =~= old(self).rest().skip(1));
            Some(s)
        } else {
            None
        }
    }

    /// All descriptions that the walk has still to give.
    pub fn remaining(self) -> (r: Vec<String>)
        requires
            self.wf(),
        ensures
            texts(r@) == self.rest(),
    {
        let ghost start = self.rest();
        let mut walk = self;
        let mut out: Vec<String> = Vec::new();
        loop
            invariant
                walk.wf(),
                texts(out@) + walk.rest() == start,
                start == self.rest(),
            decreases walk.rest().len(),
        {
            let ghost before = walk.rest();
            let ghost out_before = out@;
            match walk.next() {
                Some(s) => {
                    out.push(s);
                    assert(texts(out@) =~= texts(out_before).push(s@));
                    assert(before =~= seq![s@] + walk.rest());
                    assert(texts(out@) + walk.rest() =~= start);
                },
                None => {
                    assert(texts(out@) =~= start);
                    return out;
                },
            }
        }
    }
}

/// The envelope as it is sent.
pub enum ResponseBody<T> {
    Data { status: u16, data: T },
    Errors { status: u16, errors: Vec<String> },
}

/// The outcome of an operation, ready to be sent.
#[derive(Debug, Copy, PartialEq, Eq, PartialOrd, Ord, Hash)]
pub struct ApiResponse<T, E> {
    pub result: Result<T, E>,
}

impl<T: Clone, E: Clone> Clone for ApiResponse<T, E> {
    fn clone(&self) -> (r: Self) {
        match &self.result {
            Ok(data) => ApiResponse { result: Ok(data.clone()) },
            Err(e) => ApiResponse { result: Err(e.clone()) },
        }
    }
}

impl<T: ResponseStatusCode, E: ResponseStatusCode + CauseChain> ApiResponse<T, E> {
    pub fn new(result: Result<T, E>) -> (r: Self)
        ensures
            r.result == result,
    {
        ApiResponse { result }
    }

    /// The body of the envelope: the status of the data or of the failure,
    /// and the data or the failure's cause chain.
    pub fn into_body(self) -> (r: ResponseBody<T>)
        ensures
            match self.result {
                Ok(data) => r == (ResponseBody::Data { status: data.status_spec(), data }),
                Err(e) => (r matches ResponseBody::Errors { status, errors }
                    && status == e.status_spec() && texts(errors@) == e.chain_spec()),
            },
    {
        match self.result {
            Ok(data) => {
                let status = data.status_code();
                ResponseBody::Data { status, data }
            },
            Err(e) => {
                let status = e.status_code();
                let errors = ErrorChain::new(&e).remaining();
                ResponseBody::Errors { status, errors }
            },
        }
    }
}

impl<T: ResponseStatusCode, E: ResponseStatusCode + CauseChain> ResponseStatusCode for ApiResponse<T, E> {
    open spec fn status_spec(&self) -> u16 {
        match self.result {
            Ok(data) => data.status_spec(),
            Err(e) => e.status_spec(),
        }
    }

    fn status_code(&self) -> (r: u16) {
        match &self.result {
            Ok(data) => data.status_code(),
            Err(e) => e.status_code(),
        }
    }
}

} // verus!
