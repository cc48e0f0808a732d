//! Link analysis: each schema-level link directive is turned into ordered
//! pairwise wiring operations over the resolved identifier set. A chain
//! `[t0, t1, …, tk]` yields `(t0,t1), (t1,t2), …` in that order; a chain
//! of fewer than two tokens raises `CountError`; a pairing whose either
//! token is not a resolved identifier is dropped silently. Output order is
//! directive order, then pairwise order within each directive.

use vstd::prelude::*;
use crate::schema::{seq_views, LinkChain, SchemaError};

verus! {

/// One wiring operation, in the model: upstream and downstream canonical
/// identifiers.
pub struct SpecLink {
    pub from: Seq<char>,
    pub to: Seq<char>,
}

/// One wiring operation: upstream and downstream canonical identifiers.
#[derive(Clone, Debug, PartialEq, Eq)]
pub struct LinkInstruction {
    pub from: String,
    pub to: String,
}

impl View for LinkInstruction {
    type V = SpecLink;

    open spec fn view(&self) -> SpecLink {
        SpecLink { from: self.from@, to: self.to@ }
    }
}

/// The sequence of models of a sequence of wiring operations.
pub open spec fn link_views(v: Seq<LinkInstruction>) -> Seq<SpecLink> {
    v.map_values(|l: LinkInstruction| l@)
}

/// The wiring operations of one chain from pair position `j` on: the pair
/// `(tokens[j], tokens[j+1])` when both tokens are resolved identifiers,
/// then the later pairs.
pub open spec fn chain_pairs_from(tokens: Seq<Seq<char>>, ids: Seq<Seq<char>>, j: int) -> Seq<
    SpecLink,
>
    decreases tokens.len() - j,
{
    if j < 0 || j + 1 >= tokens.len() {
        Seq::empty()
    } else {
        let rest = chain_pairs_from(tokens, ids, j + 1);
        if ids.contains(tokens[j]) && ids.contains(tokens[j + 1]) {
            seq![SpecLink { from: tokens[j], to: tokens[j + 1] }] + rest
        } else {
            rest
        }
    }
}

/// The wiring operations of one whole chain.
pub open spec fn chain_pairs(tokens: Seq<Seq<char>>, ids: Seq<Seq<char>>) -> Seq<SpecLink> {
    chain_pairs_from(tokens, ids, 0)
}

/// The wiring operations of the directives at or after index `i`,
/// concatenated in directive order, surfacing `CountError` for the first
/// directive of fewer than two tokens.
pub open spec fn links_from(chains: Seq<LinkChain>, ids: Seq<Seq<char>>, i: int) -> Result<
    Seq<SpecLink>,
    SchemaError,
>
    decreases chains.len() - i,
{
    if i < 0 || i >= chains.len() {
        Ok(Seq::empty())
    } else if chains[i].tokens@.len() < 2 {
        Err(SchemaError::CountError)
    } else {
        match links_from(chains, ids, i + 1) {
            Err(e) => Err(e),
            Ok(rest) => Ok(chain_pairs(seq_views(chains[i].tokens@), ids) + rest),
        }
    }
}

/// The wiring operations of a whole directive list.
pub open spec fn links_spec(chains: Seq<LinkChain>, ids: Seq<Seq<char>>) -> Result<
    Seq<SpecLink>,
    SchemaError,
> {
    links_from(chains, ids, 0)
}

/// A directive of fewer than two tokens is never silently accepted: if
/// any directive at or after `j` is short, analysis from `j` raises
/// `CountError`.
pub proof fn lemma_short_chain_rejected(
    chains: Seq<LinkChain>,
    ids: Seq<Seq<char>>,
    j: int,
)
    requires
        0 <= j,
        exists|i: int| j <= i < chains.len() && (#[trigger] chains[i].tokens@.len()) < 2,
    ensures
        links_from(chains, ids, j) == Err::<Seq<SpecLink>, SchemaError>(SchemaError::CountError),
    decreases chains.len() - j,
{
    let i = choose|i: int| j <= i < chains.len() && (#[trigger] chains[i].tokens@.len()) < 2;
    if chains[j].tokens@.len() >= 2 {
        lemma_short_chain_rejected(chains, ids, j + 1);
    }
}

/// Whether `tok` stands in the resolved identifier list.
fn ids_contain(ids: &Vec<String>, tok: &String) -> (b: bool)
    ensures
        b == seq_views(ids@).contains(tok@),
{
    let mut i: usize = 0;
    while i < ids.len()
        invariant
            i <= ids@.len(),
            forall|j: int| 0 <= j < i ==> seq_views(ids@)[j] != tok@,
        decreases ids@.len() - i,
    {
        if ids[i].eq(tok) {
            assert(seq_views(ids@)[i as int] == tok@);
            return true;
        }
        assert(seq_views(ids@)[i as int] == ids@[i as int]@);
        i = i + 1;
    }
    false
}

/// Analyzes all link directives against the resolved identifier list, as
/// `links_spec` states: pairwise operations in directive order, the first
/// short directive raising `CountError`.
pub fn analyze_links(chains: &Vec<LinkChain>, ids: &Vec<String>) -> (r: Result<
    Vec<LinkInstruction>,
    SchemaError,
>)
    ensures
        (r matches Ok(v) ==> links_spec(chains@, seq_views(ids@)) == Ok::<_, SchemaError>(
            link_views(v@),
        )),
        (r matches Err(e) ==> links_spec(chains@, seq_views(ids@)) == Err::<Seq<SpecLink>, _>(e)),
{
    let ghost idsv = seq_views(ids@);
    let mut out: Vec<LinkInstruction> = Vec::new();
    let mut i: usize = 0;
    while i < chains.len()
        invariant
            i <= chains@.len(),
            idsv == seq_views(ids@),
            links_from(chains@, idsv, 0) == (match links_from(chains@, idsv, i as int) {
                Ok(rest) => Ok::<_, SchemaError>(link_views(out@) + rest),
                Err(e) => Err(e),
            }),
        decreases chains@.len() - i,
    {
        let chain = &chains[i];
        let m = chain.tokens.len();
        if m < 2 {
            return Err(SchemaError::CountError);
        }
        let ghost toks = seq_views(chain.tokens@);
        let ghost prev = out@;
        let mut j: usize = 0;
        while j < m - 1
            invariant
                j < m,
                2 <= m,
                m == chain.tokens@.len(),
                chain == &chains@[i as int],
                toks == seq_views(chain.tokens@),
                idsv == seq_views(ids@),
                link_views(prev) + chain_pairs_from(toks, idsv, 0) == link_views(out@)
                    + chain_pairs_from(toks, idsv, j as int),
            decreases m - j,
        {
            assert(toks[j as int] == chain.tokens@[j as int]@);
            assert(toks[j + 1] == chain.tokens@[j + 1]@);
            let a_ok = ids_contain(ids, &chain.tokens[j]);
            let b_ok = ids_contain(ids, &chain.tokens[j + 1]);
            let ghost before = out@;
            if a_ok && b_ok {
                out.push(
                    LinkInstruction { from: chain.tokens[j].clone(), to: chain.tokens[j + 1].clone() },
                );
                proof {
                    let pair = SpecLink { from: toks[j as int], to: toks[j + 1] };
                    assert(link_views(out@) =~= link_views(before) + seq![pair]);
                    assert(link_views(before) + (seq![pair] + chain_pairs_from(toks, idsv, j + 1))
                        =~= (link_views(before) + seq![pair]) + chain_pairs_from(toks, idsv, j + 1));
                }
            }
            j = j + 1;
        }
        assert(chain_pairs_from(toks, idsv, j as int) =~= Seq::<SpecLink>::empty());
        assert(link_views(out@) + Seq::<SpecLink>::empty() =~= link_views(out@));
        proof {
            match links_from(chains@, idsv, i + 1) {
                Ok(rest) => {
                    assert(link_views(prev) + (chain_pairs(toks, idsv) + rest) =~= (link_views(prev)
                        + chain_pairs(toks, idsv)) + rest);
                },
                Err(_) => {},
            }
        }
        i = i + 1;
    }
    assert(link_views(out@) + Seq::<SpecLink>::empty() =~= link_views(out@));
    Ok(out)
}

} // verus!
