//! The source of an error, kept as text.

use vstd::prelude::*;
use vstd::string::*;
use super::BaseError;
use crate::text::texts_of;

verus! {

/// The text of an error that led to another one, with a prefix that names
/// where it came from, and the error that led to it in turn.
#[derive(Debug)]
pub struct ContextError {
    pub prefix: String,
    pub msg: String,
    pub source: Option<Box<ContextError>>,
}

/// Each text with the prefix before it.
pub open spec fn prefixed(prefix: Seq<char>, texts: Seq<Seq<char>>) -> Seq<Seq<char>> {
    texts.map_values(|t: Seq<char>| prefix + t)
}

/// The text of an error and of each error below it, the nearest first.
pub open spec fn chain_texts(e: ContextError) -> Seq<Seq<char>>
    decreases e,
{
    seq![e.prefix@ + e.msg@] + match e.source {
        Some(below) => chain_texts(*below),
        None => Seq::empty(),
    }
}

/// The texts of an optional boxed source.
pub open spec fn texts_below(below: Option<Box<ContextError>>) -> Seq<Seq<char>> {
    match below {
        Some(b) => chain_texts(*b),
        None => Seq::empty(),
    }
}

impl View for ContextError {
    type V = Seq<Seq<char>>;

    /// The text of this error and of each error below it, the nearest first.
    open spec fn view(&self) -> Seq<Seq<char>> {
        chain_texts(*self)
    }
}

impl ContextError {
    /// A source of one level: the message with the prefix before it.
    pub fn new(prefix: &str, msg: &str) -> (r: Self)
        ensures
            r@ == seq![prefix@ + msg@],
    {
        let r = ContextError { prefix: String::from_str(prefix), msg: String::from_str(msg), source: None };
        assert(r@ =~= seq![prefix@ + msg@]);
        r
    }

    /// The source that stands for `err`: its text and the texts of its own
    /// sources, each with the prefix before it.
    pub fn from<T: BaseError>(prefix: &str, err: &T) -> (r: Self)
        ensures
            r@ == prefixed(prefix@, seq![err.message()] + err.causes()),
    {
        let head = err.to_string();
        let rest = err.sources();
        let mut below: Option<Box<ContextError>> = None;
        let mut i: usize = rest.len();
        proof {
            assert(texts_of(rest@).len() == rest@.len());
            assert(prefixed(prefix@, err.causes().skip(i as int)) =~= Seq::empty());
        }
        while i > 0
            invariant
                i <= rest.len(),
                texts_of(rest@) == err.causes(),
                texts_below(below) == prefixed(prefix@, err.causes().skip(i as int)),
            decreases i,
        {
            i = i - 1;
            let ghost lower: Seq<Seq<char>> = texts_below(below);
            let node = ContextError {
                prefix: String::from_str(prefix),
                msg: rest[i].clone(),
                source: below,
            };
            proof {
                assert(rest@[i as int]@ == err.causes()[i as int]);
                assert(node@ =~= seq![prefix@ + rest@[i as int]@] + lower);
                assert(node@ =~= prefixed(prefix@, err.causes().skip(i as int)));
            }
            below = Some(Box::new(node));
        }
        let ghost lower: Seq<Seq<char>> = texts_below(below);
        let r = ContextError { prefix: String::from_str(prefix), msg: head, source: below };
        proof {
            let all = seq![err.message()] + err.causes();
            assert(err.causes().skip(0) =~= err.causes());
            assert(r@ =~= seq![prefix@ + err.message()] + lower);
            assert(r@ =~= prefixed(prefix@, all));
        }
        r
    }

    /// The texts of the errors below this one, the nearest first.
    pub fn below(&self) -> (r: Vec<String>)
        ensures
            texts_of(r@) == self@.skip(1),
        decreases self,
    {
        match &self.source {
            Some(b) => {
                let mut head = Vec::new();
                let mut first = b.prefix.clone();
                first.append(b.msg.as_str());
                head.push(first);
                let mut tail = b.below();
                let ghost h = head@;
                let ghost t = tail@;
                head.append(&mut tail);
                proof {
                    assert(head@ =~= h + t);
                    assert(texts_of(head@) =~= seq![b.prefix@ + b.msg@] + texts_of(t));
                    assert(b@.skip(1) =~= texts_below(b.source));
                    assert(texts_of(head@) =~= self@.skip(1));
                }
                head
            },
            None => {
                let r: Vec<String> = Vec::new();
                assert(texts_of(r@) =~= self@.skip(1));
                r
            },
        }
    }

    /// The text of this error and of each error below it, the nearest first.
    pub fn texts(&self) -> (r: Vec<String>)
        ensures
            texts_of(r@) == self@,
    {
        let mut head = Vec::new();
        head.push(self.to_string());
        let mut tail = self.below();
        let ghost h = head@;
        let ghost t = tail@;
        head.append(&mut tail);
        proof {
            assert(head@ =~= h + t);
            assert(texts_of(head@) =~= seq![self.prefix@ + self.msg@] + texts_of(t));
            assert(self@ =~= seq![self@[0]] + self@.skip(1));
            assert(texts_of(head@) =~= self@);
        }
        head
    }
}

impl BaseError for ContextError {
    open spec fn message(&self) -> Seq<char> {
        self.prefix@ + self.msg@
    }

    open spec fn causes(&self) -> Seq<Seq<char>> {
        self@.skip(1)
    }

    fn to_string(&self) -> (r: String) {
        let mut out = self.prefix.clone();
        out.append(self.msg.as_str());
        out
    }

    fn sources(&self) -> (r: Vec<String>) {
        self.below()
    }
}

} // verus!
