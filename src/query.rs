use vstd::prelude::*;

use crate::text::{form_encode, form_encoded};

verus! {

/// Query parameters as (name, value) texts, in the order they go on the wire.
pub type ParamSeq = Seq<(Seq<char>, Seq<char>)>;

/// The position of the first parameter called `name`, if any.
pub open spec fn index_of(ps: ParamSeq, name: Seq<char>) -> Option<int>
    decreases ps.len(),
{
    if ps.len() == 0 {
        None
    } else {
        match index_of(ps.drop_last(), name) {
            Some(i) => Some(i),
            None => if ps.last().0 == name {
                Some(ps.len() - 1)
            } else {
                None
            },
        }
    }
}

/// The parameters after setting `name` to `value`: an existing entry of that
/// name takes the new value in place, otherwise the pair goes at the end.
pub open spec fn with_param(ps: ParamSeq, name: Seq<char>, value: Seq<char>) -> ParamSeq {
    match index_of(ps, name) {
        Some(i) => ps.update(i, (name, value)),
        None => ps.push((name, value)),
    }
}

/// The value of the parameter called `name`, if any.
pub open spec fn param_value(ps: ParamSeq, name: Seq<char>) -> Option<Seq<char>> {
    match index_of(ps, name) {
        Some(i) => Some(ps[i].1),
        None => None,
    }
}

/// Each pair written as `&name=value`, both parts form-encoded.
pub open spec fn encoded_pairs(ps: ParamSeq) -> Seq<char>
    decreases ps.len(),
{
    if ps.len() == 0 {
        Seq::empty()
    } else {
        encoded_pairs(ps.drop_last()) + "&"@ + form_encoded(ps.last().0) + "="@ + form_encoded(
            ps.last().1,
        )
    }
}

/// The full address of a request: base, endpoint path, the key, then the
/// parameters.
pub open spec fn request_url(base: Seq<char>, path: Seq<char>, key: Seq<char>, ps: ParamSeq) -> Seq<
    char,
> {
    base + path + "?key="@ + key + encoded_pairs(ps)
}

/// What `index_of` finds: the first entry of that name, or none at all.
pub proof fn lemma_index_of(ps: ParamSeq, name: Seq<char>)
    ensures
        match index_of(ps, name) {
            Some(i) => 0 <= i < ps.len() && ps[i].0 == name && forall|j: int|
                0 <= j < i ==> ps[j].0 != name,
            None => forall|j: int| 0 <= j < ps.len() ==> ps[j].0 != name,
        },
    decreases ps.len(),
{
    if ps.len() > 0 {
        let front = ps.drop_last();
        lemma_index_of(front, name);
        assert forall|j: int| 0 <= j < front.len() implies front[j] == ps[j] by {}
    }
}

/// An entry of that name at `i`, with none before it, is the one `index_of` finds.
pub proof fn lemma_index_of_at(ps: ParamSeq, name: Seq<char>, i: int)
    requires
        0 <= i < ps.len(),
        ps[i].0 == name,
        forall|j: int| 0 <= j < i ==> ps[j].0 != name,
    ensures
        index_of(ps, name) == Some(i),
{
    lemma_index_of(ps, name);
    match index_of(ps, name) {
        Some(k) => {
            if k < i {
                assert(ps[k].0 != name);
            } else if k > i {
                assert(ps[i].0 != name);
            }
        },
        None => {
            assert(ps[i].0 != name);
        },
    }
}

/// After a parameter is set, `index_of` finds the entry that was written.
pub proof fn lemma_with_param_index(ps: ParamSeq, name: Seq<char>, value: Seq<char>)
    ensures
        index_of(with_param(ps, name, value), name) == Some(
            match index_of(ps, name) {
                Some(i) => i,
                None => ps.len() as int,
            },
        ),
{
    lemma_index_of(ps, name);
    let qs = with_param(ps, name, value);
    match index_of(ps, name) {
        Some(i) => {
            assert forall|j: int| 0 <= j < i implies qs[j].0 != name by {
                assert(qs[j] == ps[j]);
            }
            lemma_index_of_at(qs, name, i);
        },
        None => {
            assert forall|j: int| 0 <= j < ps.len() implies qs[j].0 != name by {
                assert(qs[j] == ps[j]);
            }
            lemma_index_of_at(qs, name, ps.len() as int);
        },
    }
}

/// The encoding of two runs of parameters is the encoding of each, in turn.
pub proof fn lemma_encoded_pairs_concat(a: ParamSeq, b: ParamSeq)
    ensures
        encoded_pairs(a + b) == encoded_pairs(a) + encoded_pairs(b),
    decreases b.len(),
{
    if b.len() == 0 {
        assert(a + b == a);
    } else {
        lemma_encoded_pairs_concat(a, b.drop_last());
        assert((a + b).drop_last() == a + b.drop_last());
        assert((a + b).last() == b.last());
    }
}

/// Setting a parameter twice leaves the parameters as setting it once to the
/// second value: the last write wins.
pub proof fn lemma_last_write_wins(ps: ParamSeq, name: Seq<char>, v1: Seq<char>, v2: Seq<char>)
    ensures
        with_param(with_param(ps, name, v1), name, v2) == with_param(ps, name, v2),
        param_value(with_param(with_param(ps, name, v1), name, v2), name) == Some(v2),
{
    lemma_index_of(ps, name);
    lemma_with_param_index(ps, name, v1);
    lemma_with_param_index(ps, name, v2);
    let qs = with_param(ps, name, v1);
    match index_of(ps, name) {
        Some(i) => {
            assert(qs.update(i, (name, v2)) =~= ps.update(i, (name, v2)));
        },
        None => {
            assert(qs.update(ps.len() as int, (name, v2)) =~= ps.push((name, v2)));
        },
    }
}

/// Setting one parameter leaves the value of every other parameter as it was.
pub proof fn lemma_other_params_kept(
    ps: ParamSeq,
    name: Seq<char>,
    value: Seq<char>,
    other: Seq<char>,
)
    requires
        other != name,
    ensures
        param_value(with_param(ps, name, value), other) == param_value(ps, other),
{
    lemma_index_of(ps, name);
    lemma_index_of(ps, other);
    let qs = with_param(ps, name, value);
    match index_of(ps, other) {
        Some(k) => {
            assert forall|j: int| 0 <= j < k implies qs[j].0 != other by {
                if j != ps.len() {
                    assert(qs[j].0 == ps[j].0 || qs[j].0 == name);
                }
            }
            assert(qs[k] == ps[k]);
            lemma_index_of_at(qs, other, k);
        },
        None => {
            lemma_index_of(qs, other);
            match index_of(qs, other) {
                Some(k) => {
                    assert(qs[k].0 == ps[k].0 || qs[k].0 == name);
                },
                None => {},
            }
        },
    }
}

/// The accumulated query of a request: where it goes and which parameters it
/// carries so far.
#[derive(Debug, Clone)]
pub struct Query {
    base_url: String,
    key: String,
    params: Vec<(String, String)>,
}

impl Query {
    /// The base address of the service.
    pub closed spec fn base_view(&self) -> Seq<char> {
        self.base_url@
    }

    /// The credential sent along.
    pub closed spec fn key_view(&self) -> Seq<char> {
        self.key@
    }

    /// The optional parameters set so far.
    pub closed spec fn params_view(&self) -> ParamSeq {
        self.params.deep_view()
    }

    /// A query for the given service address and key, with no parameters.
    pub fn new(base_url: &str, key: &str) -> (r: Query)
        ensures
            r.base_view() == base_url@,
            r.key_view() == key@,
            r.params_view() == Seq::<(Seq<char>, Seq<char>)>::empty(),
    {
        let r = Query { base_url: base_url.to_owned(), key: key.to_owned(), params: Vec::new() };
        assert(r.params.deep_view() =~= Seq::<(Seq<char>, Seq<char>)>::empty());
        r
    }

    /// Sets `name` to `value`, replacing an earlier value of that name.
    pub fn set(self, name: &str, value: String) -> (r: Query)
        ensures
            r.base_view() == self.base_view(),
            r.key_view() == self.key_view(),
            r.params_view() == with_param(self.params_view(), name@, value@),
    {
        let mut q = self;
        let ghost ps = q.params.deep_view();
        let owned = name.to_owned();
        let mut i: usize = 0;
        while i < q.params.len()
            invariant
                q.params.deep_view() == ps,
                ps == self.params.deep_view(),
                q.base_url@ == self.base_url@,
                q.key@ == self.key@,
                owned@ == name@,
                i <= ps.len(),
                forall|j: int| 0 <= j < i ==> ps[j].0 != name@,
            decreases q.params.len() - i,
        {
            if q.params[i].0 == owned {
                proof {
                    lemma_index_of_at(ps, name@, i as int);
                }
                q.params[i] = (owned, value);
                assert(q.params.deep_view() =~= with_param(ps, name@, value@));
                return q;
            }
            i = i + 1;
        }
        proof {
            lemma_index_of(ps, name@);
        }
        q.params.push((owned, value));
        assert(q.params.deep_view() =~= with_param(ps, name@, value@));
        q
    }

    /// The address of a request on endpoint `path`, carrying the `required`
    /// parameters and then the optional ones.
    pub fn url(&self, path: &str, required: &Vec<(String, String)>) -> (r: String)
        ensures
            r@ == request_url(
                self.base_view(),
                path@,
                self.key_view(),
                required.deep_view() + self.params_view(),
            ),
    {
        let mut out = self.base_url.clone();
        out.append(path);
        out.append("?key=");
        out.append(self.key.as_str());
        append_pairs(&mut out, required);
        append_pairs(&mut out, &self.params);
        proof {
            lemma_encoded_pairs_concat(required.deep_view(), self.params.deep_view());
        }
        out
    }
}

/// Writes each pair as `&name=value`, both parts form-encoded.
fn append_pairs(out: &mut String, ps: &Vec<(String, String)>)
    ensures
        final(out)@ == old(out)@ + encoded_pairs(ps.deep_view()),
{
    let ghost start = out@;
    let mut i: usize = 0;
    while i < ps.len()
        invariant
            i <= ps@.len(),
            out@ == start + encoded_pairs(ps.deep_view().subrange(0, i as int)),
        decreases ps.len() - i,
    {
        assert(ps.deep_view().subrange(0, i as int + 1).drop_last() == ps.deep_view().subrange(
            0,
            i as int,
        ));
        out.append("&");
        let name = form_encode(ps[i].0.as_str());
        out.append(name.as_str());
        out.append("=");
        let value = form_encode(ps[i].1.as_str());
        out.append(value.as_str());
        i = i + 1;
    }
    assert(ps.deep_view().subrange(0, ps@.len() as int) == ps.deep_view());
}

} // verus!
