//! Entity identifiers and the source that issues them.
use crate::element::ElementType;
use crate::text::push_decimal;
use vstd::prelude::*;
use vstd::std_specs::cmp::PartialEqSpecImpl;

verus! {

/// The identity of an entity: the owner's tag, an index that is unique
/// among the identifiers of one source, and the element kind.
#[derive(Debug)]
pub struct Id {
    owner_id: String,
    index: usize,
    element_type: ElementType,
}

/// What an [`Id`] holds, as mathematical values.
pub struct IdView {
    pub owner_id: Seq<char>,
    pub index: usize,
    pub element_type: ElementType,
}

impl View for Id {
    type V = IdView;

    closed spec fn view(&self) -> IdView {
        IdView { owner_id: self.owner_id@, index: self.index, element_type: self.element_type }
    }
}

impl IdView {
    /// The external form: owner, `_`, index.
    pub open spec fn external_form(self) -> Seq<char> {
        self.owner_id + seq!['_'] + crate::text::decimal_nat(self.index as nat)
    }

    /// The HTML-safe form: owner, `-`, index.
    pub open spec fn html_form(self) -> Seq<char> {
        self.owner_id + seq!['-'] + crate::text::decimal_nat(self.index as nat)
    }
}

/// A counter that issues the indices of fresh identifiers.
#[derive(Debug)]
pub struct IdSource {
    next: usize,
}

/// The identifier that a source whose next index is `next` issues.
pub open spec fn issued(next: nat, owner_id: Seq<char>, element_type: ElementType) -> IdView {
    IdView { owner_id, index: next as usize, element_type }
}

/// The identifiers that a source whose next index is `first` issues for a
/// run of requests, each an owner and a kind.
pub open spec fn issued_run(first: nat, requests: Seq<(Seq<char>, ElementType)>) -> Seq<IdView>
    decreases requests.len(),
{
    if requests.len() == 0 {
        Seq::empty()
    } else {
        seq![issued(first, requests[0].0, requests[0].1)] + issued_run(
            first + 1,
            requests.drop_first(),
        )
    }
}

impl IdSource {
    /// The index of the next identifier.
    pub closed spec fn next_index(&self) -> nat {
        self.next as nat
    }

    /// Whether no further identifier can be issued.
    pub open spec fn exhausted(&self) -> bool {
        self.next_index() >= usize::MAX
    }

    /// A source that has issued nothing yet.
    pub fn new() -> (r: IdSource)
        ensures
            r.next_index() == 0,
    {
        IdSource { next: 0 }
    }

    /// A source whose next index is `next`: it carries on where an earlier
    /// source stopped.
    pub fn starting_at(next: usize) -> (r: IdSource)
        ensures
            r.next_index() == next,
    {
        IdSource { next }
    }

    /// Whether no further identifier can be issued.
    pub fn is_exhausted(&self) -> (r: bool)
        ensures
            r == self.exhausted(),
    {
        self.next == usize::MAX
    }
}

impl Id {
    /// The identifier with the given fields.
    pub fn new(owner_id: &str, index: usize, element_type: ElementType) -> (r: Id)
        ensures
            r@ == (IdView { owner_id: owner_id@, index, element_type }),
    {
        Id { owner_id: String::from_str(owner_id), index, element_type }
    }

    /// A fresh identifier for `owner_id`: its index is the source's next
    /// index, and the source moves on by one.
    pub fn generate(owner_id: &str, element_type: ElementType, source: &mut IdSource) -> (r: Id)
        requires
            !old(source).exhausted(),
        ensures
            r@ == issued(old(source).next_index(), owner_id@, element_type),
            final(source).next_index() == old(source).next_index() + 1,
    {
        let index = source.next;
        source.next = source.next + 1;
        Id { owner_id: String::from_str(owner_id), index, element_type }
    }

    pub fn owner_id(&self) -> (r: &str)
        ensures
            r@ == self@.owner_id,
    {
        self.owner_id.as_str()
    }

    pub fn index(&self) -> (r: usize)
        ensures
            r == self@.index,
    {
        self.index
    }

    pub fn element_type(&self) -> (r: &ElementType)
        ensures
            *r == self@.element_type,
    {
        &self.element_type
    }

    /// The HTML-safe form of the identifier: owner, `-`, index.
    pub fn as_html_id(&self) -> (r: String)
        ensures
            r@ == self@.html_form(),
    {
        let mut out = self.owner_id.clone();
        proof {
            reveal_strlit("-");
        }
        out.append("-");
        push_decimal(&mut out, self.index as u64);
        out
    }

    /// The external form of the identifier: owner, `_`, index.
    pub fn as_string(&self) -> (r: String)
        ensures
            r@ == self@.external_form(),
    {
        let mut out = self.owner_id.clone();
        proof {
            reveal_strlit("_");
        }
        out.append("_");
        push_decimal(&mut out, self.index as u64);
        out
    }

    /// Whether the two identifiers are equal in all three fields.
    pub fn same(&self, other: &Id) -> (r: bool)
        ensures
            r == (self@ == other@),
    {
        self.owner_id == other.owner_id && self.index == other.index && self.element_type
            == other.element_type
    }

    /// A copy of the identifier.
    pub fn duplicate(&self) -> (r: Id)
        ensures
            r@ == self@,
    {
        Id {
            owner_id: self.owner_id.clone(),
            index: self.index,
            element_type: self.element_type,
        }
    }
}

impl Clone for Id {
    fn clone(&self) -> (r: Id)
        ensures
            r@ == self@,
    {
        self.duplicate()
    }
}

impl PartialEq for Id {
    /// Two identifiers are equal when all three fields are.
    fn eq(&self, other: &Id) -> (r: bool) {
        self.same(other)
    }
}

impl PartialEqSpecImpl for Id {
    open spec fn obeys_eq_spec() -> bool {
        true
    }

    open spec fn eq_spec(&self, other: &Id) -> bool {
        self@ == other@
    }
}

impl Eq for Id {

}

/// An identifier, under the name of what it identifies.
pub type ElementId = Id;

/// Identifiers issued in one run by one source are pairwise distinct.
pub proof fn lemma_issued_run_distinct(
    first: nat,
    requests: Seq<(Seq<char>, ElementType)>,
    i: int,
    j: int,
)
    requires
        first + requests.len() <= usize::MAX,
        0 <= i < j < requests.len(),
    ensures
        issued_run(first, requests).len() == requests.len(),
        issued_run(first, requests)[i] != issued_run(first, requests)[j],
{
    lemma_issued_run_index(first, requests, i);
    lemma_issued_run_index(first, requests, j);
}

/// The `k`-th identifier of a run has index `first + k` and the owner and
/// kind of the `k`-th request.
pub proof fn lemma_issued_run_index(first: nat, requests: Seq<(Seq<char>, ElementType)>, k: int)
    requires
        0 <= k < requests.len(),
    ensures
        issued_run(first, requests).len() == requests.len(),
        issued_run(first, requests)[k] == issued(first + k as nat, requests[k].0, requests[k].1),
    decreases requests.len(),
{
    lemma_issued_run_len(first, requests);
    if k > 0 {
        lemma_issued_run_index(first + 1, requests.drop_first(), k - 1);
    }
}

proof fn lemma_issued_run_len(first: nat, requests: Seq<(Seq<char>, ElementType)>)
    ensures
        issued_run(first, requests).len() == requests.len(),
    decreases requests.len(),
{
    if requests.len() > 0 {
        lemma_issued_run_len(first + 1, requests.drop_first());
    }
}

} // verus!
