//! The query option builder: an accumulator of recognized query parameters
//! that builds an immutable options value, serialized for the request line.

use vstd::prelude::*;

use crate::text::{bool_string, bool_text, comma_join, dec_digits, join_commas, u64_string};

verus! {

/// The recognized query parameter names.
#[derive(Clone, Copy, Debug, PartialEq, Eq, Structural)]
pub enum ParamName {
    Jql,
    StartAt,
    MaxResults,
    Fields,
    Expand,
    ValidateQuery,
    State,
    TypeName,
    Name,
    ProjectKeyOrId,
}

impl ParamName {
    /// The parameter's name on the wire.
    pub open spec fn spec_token(self) -> Seq<char> {
        match self {
            ParamName::Jql => "jql"@,
            ParamName::StartAt => "startAt"@,
            ParamName::MaxResults => "maxResults"@,
            ParamName::Fields => "fields"@,
            ParamName::Expand => "expand"@,
            ParamName::ValidateQuery => "validateQuery"@,
            ParamName::State => "state"@,
            ParamName::TypeName => "type"@,
            ParamName::Name => "name"@,
            ParamName::ProjectKeyOrId => "projectKeyOrId"@,
        }
    }

    /// Returns the parameter's name on the wire.
    pub fn token(self) -> (r: &'static str)
        ensures
            r@ == self.spec_token(),
    {
        match self {
            ParamName::Jql => "jql",
            ParamName::StartAt => "startAt",
            ParamName::MaxResults => "maxResults",
            ParamName::Fields => "fields",
            ParamName::Expand => "expand",
            ParamName::ValidateQuery => "validateQuery",
            ParamName::State => "state",
            ParamName::TypeName => "type",
            ParamName::Name => "name",
            ParamName::ProjectKeyOrId => "projectKeyOrId",
        }
    }
}

/// The mapping that a parameter list denotes: later entries win.
pub open spec fn opts_map(s: Seq<(ParamName, Seq<char>)>) -> Map<ParamName, Seq<char>>
    decreases s.len(),
{
    if s.len() == 0 {
        Map::empty()
    } else {
        opts_map(s.drop_last()).insert(s.last().0, s.last().1)
    }
}

/// Whether each parameter name occurs at most once.
pub open spec fn keys_unique(s: Seq<(ParamName, Seq<char>)>) -> bool {
    forall|i: int, j: int| 0 <= i < j < s.len() ==> s[i].0 != s[j].0
}

/// Overriding the entry at `i` changes the denoted mapping at that key alone.
proof fn lemma_opts_update(s: Seq<(ParamName, Seq<char>)>, i: int, v: Seq<char>)
    requires
        0 <= i < s.len(),
        keys_unique(s),
    ensures
        opts_map(s.update(i, (s[i].0, v))) =~= opts_map(s).insert(s[i].0, v),
    decreases s.len(),
{
    let k = s[i].0;
    let s2 = s.update(i, (k, v));
    if i == s.len() - 1 {
        assert(s2.drop_last() =~= s.drop_last());
        assert(opts_map(s2) =~= opts_map(s).insert(k, v));
    } else {
        assert(s2.drop_last() =~= s.drop_last().update(i, (k, v)));
        assert(keys_unique(s.drop_last())) by {
            assert(forall|x: int, y: int|
                0 <= x < y < s.drop_last().len() ==> s.drop_last()[x].0 != s.drop_last()[y].0);
        }
        lemma_opts_update(s.drop_last(), i, v);
        assert(s.last().0 != k);
        assert(opts_map(s2) =~= opts_map(s).insert(k, v));
    }
}

/// The denoted mapping is empty exactly when the list is.
proof fn lemma_opts_empty(s: Seq<(ParamName, Seq<char>)>)
    ensures
        (opts_map(s).dom() =~= Set::empty()) <==> s.len() == 0,
    decreases s.len(),
{
    if s.len() > 0 {
        assert(opts_map(s).dom().contains(s.last().0));
    }
}

/// The parameter pairs seen at the specification level.
pub open spec fn pair_views(s: Seq<(ParamName, String)>) -> Seq<(ParamName, Seq<char>)> {
    Seq::new(s.len(), |i: int| (s[i].0, s[i].1@))
}

/// The pairs as they are handed to the form encoder: name text and value text.
pub open spec fn wire_pairs(s: Seq<(ParamName, Seq<char>)>) -> Seq<(Seq<char>, Seq<char>)> {
    Seq::new(s.len(), |i: int| (s[i].0.spec_token(), s[i].1))
}

/// The views of a list of rendered pairs.
pub open spec fn string_pair_views(s: Seq<(String, String)>) -> Seq<(Seq<char>, Seq<char>)> {
    Seq::new(s.len(), |i: int| (s[i].0@, s[i].1@))
}

/// What `url`'s form encoder returns for a pair list, as a named function
/// of the pairs alone.
pub uninterp spec fn form_encoded(pairs: Seq<(Seq<char>, Seq<char>)>) -> Seq<char>;

/// Relies on `url::form_urlencoded::Serializer` (`extend_pairs` then
/// `finish`): writes the given pairs in `application/x-www-form-urlencoded`
/// form, a function of the pairs alone.
#[verifier::external_body]
fn form_encode(pairs: &Vec<(String, String)>) -> (r: String)
    ensures
        r@ == form_encoded(string_pair_views(pairs@)),
{
    url::form_urlencoded::Serializer::new(String::new())
        .extend_pairs(pairs.iter().map(|p| (&p.0, &p.1)))
        .finish()
}

/// Replaces the value under `key`, or appends the pair if `key` is absent.
#[verifier::loop_isolation(false)]
fn insert_param(params: &mut Vec<(ParamName, String)>, key: ParamName, value: String)
    requires
        keys_unique(pair_views(old(params)@)),
    ensures
        keys_unique(pair_views(final(params)@)),
        opts_map(pair_views(final(params)@)) =~= opts_map(pair_views(old(params)@)).insert(key, value@),
{
    let ghost orig = pair_views(params@);
    let mut i: usize = 0;
    while i < params.len()
        invariant
            0 <= i <= params@.len(),
            pair_views(params@) == orig,
            keys_unique(orig),
            forall|j: int| 0 <= j < i ==> orig[j].0 != key,
        decreases params@.len() - i,
    {
        if params[i].0 == key {
            params.set(i, (key, value));
            proof {
                assert(pair_views(params@) =~~= orig.update(i as int, (key, value@)));
                assert(orig[i as int].0 == key);
                lemma_opts_update(orig, i as int, value@);
                assert(keys_unique(pair_views(params@)));
                assert(opts_map(pair_views(params@)) =~= opts_map(orig).insert(key, value@));
            }
            return ;
        }
        i = i + 1;
    }
    params.push((key, value));
    proof {
        let now = pair_views(params@);
        assert(now.drop_last() =~~= orig);
        assert(now.last() == (key, value@));
        assert forall|x: int, y: int| 0 <= x < y < now.len() implies now[x].0 != now[y].0 by {
            assert(now[x] == orig[x]);
            if y < now.len() - 1 {
                assert(now[y] == orig[y]);
            }
        }
    }
}

/// Copies a parameter list, entry by entry.
#[verifier::loop_isolation(false)]
fn copy_params(params: &Vec<(ParamName, String)>) -> (r: Vec<(ParamName, String)>)
    ensures
        pair_views(r@) == pair_views(params@),
{
    let mut out: Vec<(ParamName, String)> = Vec::new();
    let mut i: usize = 0;
    while i < params.len()
        invariant
            0 <= i <= params@.len(),
            out@.len() == i,
            forall|j: int| 0 <= j < i ==> out@[j].0 == params@[j].0 && out@[j].1@ == params@[j].1@,
        decreases params@.len() - i,
    {
        let k = params[i].0;
        let v = params[i].1.clone();
        out.push((k, v));
        i = i + 1;
    }
    proof {
        assert(pair_views(out@) =~= pair_views(params@));
    }
    out
}

/// Options available for a search or listing call: an immutable mapping from
/// recognized parameter names to values, built by `SearchOptionsBuilder`.
#[derive(Debug)]
pub struct SearchOptions {
    params: Vec<(ParamName, String)>,
}

impl View for SearchOptions {
    type V = Map<ParamName, Seq<char>>;

    closed spec fn view(&self) -> Map<ParamName, Seq<char>> {
        opts_map(pair_views(self.params@))
    }
}

impl SearchOptions {
    /// Each parameter name occurs at most once in the stored list.
    #[verifier::type_invariant]
    pub closed spec fn wf(self) -> bool {
        keys_unique(pair_views(self.params@))
    }

    /// The stored parameter list.
    pub closed spec fn param_list(self) -> Seq<(ParamName, Seq<char>)> {
        pair_views(self.params@)
    }

    /// What `serialize` returns.
    pub open spec fn spec_serialize(self) -> Option<Seq<char>> {
        if self.param_list().len() == 0 {
            None
        } else {
            Some(form_encoded(wire_pairs(self.param_list())))
        }
    }

    /// Return a new instance of a builder for options
    pub fn builder() -> (r: SearchOptionsBuilder)
        ensures
            r@ =~= Map::<ParamName, Seq<char>>::empty(),
    {
        SearchOptionsBuilder::new()
    }

    /// Serializes the options as a query string, or `None` when no options
    /// are set.
    pub fn serialize(&self) -> (r: Option<String>)
        ensures
            r is Some <==> self.spec_serialize() is Some,
            r matches Some(s) ==> self.spec_serialize() == Some(s@),
            r is None <==> self@.dom() =~= Set::<ParamName>::empty(),
    {
        proof {
            use_type_invariant(self);
            lemma_opts_empty(self.param_list());
        }
        if self.params.len() == 0 {
            None
        } else {
            Some(form_encode(&self.wire_params()))
        }
    }

    /// The pairs as name text and value text, in stored order.
    #[verifier::loop_isolation(false)]
    fn wire_params(&self) -> (r: Vec<(String, String)>)
        ensures
            string_pair_views(r@) == wire_pairs(self.param_list()),
    {
        let mut out: Vec<(String, String)> = Vec::new();
        let mut i: usize = 0;
        while i < self.params.len()
            invariant
                0 <= i <= self.params@.len(),
                out@.len() == i,
                forall|j: int| 0 <= j < i ==> out@[j].0@ == self.params@[j].0.spec_token()
                    && out@[j].1@ == self.params@[j].1@,
            decreases self.params@.len() - i,
        {
            let name = String::from_str(self.params[i].0.token());
            let value = self.params[i].1.clone();
            out.push((name, value));
            i = i + 1;
        }
        proof {
            assert(string_pair_views(out@) =~= wire_pairs(pair_views(self.params@)));
        }
        out
    }

    /// Serializes the options with one more pair appended: the query string
    /// of a search request, the query pair always present.
    pub fn serialize_with(&self, name: &str, value: &str) -> (r: String)
        ensures
            r@ == form_encoded(wire_pairs(self.param_list()).push((name@, value@))),
    {
        proof {
            use_type_invariant(self);
        }
        let mut pairs = self.wire_params();
        pairs.push((String::from_str(name), String::from_str(value)));
        proof {
            assert(string_pair_views(pairs@) =~~= wire_pairs(self.param_list()).push(
                (name@, value@),
            ));
        }
        form_encode(&pairs)
    }

    /// Seeds a builder with this value's parameters, for derivation.
    pub fn as_builder(&self) -> (r: SearchOptionsBuilder)
        ensures
            r@ == self@,
    {
        proof {
            use_type_invariant(self);
        }
        SearchOptionsBuilder::copy_from(self)
    }
}

/// Law: an options value serializes to no query string exactly when it holds
/// no parameters; otherwise the query string is the form encoding of exactly
/// the held pairs — each recognized name at most once, with the value that
/// was written last, and no other pairs.
pub proof fn lemma_serialize_exact(o: SearchOptions)
    requires
        o.wf(),
    ensures
        (o.spec_serialize() is None) <==> (o@.dom() =~= Set::<ParamName>::empty()),
        o.spec_serialize() matches Some(q) ==> q == form_encoded(wire_pairs(o.param_list())),
        keys_unique(o.param_list()),
        opts_map(o.param_list()) == o@,
{
    lemma_opts_empty(o.param_list());
}

impl Default for SearchOptions {
    /// An options value with no parameters set.
    fn default() -> (r: SearchOptions)
        ensures
            r@ =~= Map::<ParamName, Seq<char>>::empty(),
    {
        SearchOptions { params: Vec::new() }
    }
}

/// A builder interface for search options. Typically initialized with
/// `SearchOptions::builder()`.
#[derive(Debug)]
pub struct SearchOptionsBuilder {
    params: Vec<(ParamName, String)>,
}

impl View for SearchOptionsBuilder {
    type V = Map<ParamName, Seq<char>>;

    closed spec fn view(&self) -> Map<ParamName, Seq<char>> {
        opts_map(pair_views(self.params@))
    }
}

impl Default for SearchOptionsBuilder {
    /// A builder with no parameters set.
    fn default() -> (r: SearchOptionsBuilder)
        ensures
            r@ =~= Map::<ParamName, Seq<char>>::empty(),
    {
        SearchOptionsBuilder { params: Vec::new() }
    }
}

impl SearchOptionsBuilder {
    /// Each parameter name occurs at most once in the stored list.
    #[verifier::type_invariant]
    pub closed spec fn wf(self) -> bool {
        keys_unique(pair_views(self.params@))
    }

    /// A builder with no parameters set.
    pub fn new() -> (r: SearchOptionsBuilder)
        ensures
            r@ =~= Map::<ParamName, Seq<char>>::empty(),
    {
        SearchOptionsBuilder { params: Vec::new() }
    }

    /// A builder holding the given options' parameters.
    fn copy_from(search_options: &SearchOptions) -> (r: SearchOptionsBuilder)
        requires
            search_options.wf(),
        ensures
            r@ == search_options@,
    {
        let inner = SearchOptionsBuilder { params: copy_params(&search_options.params) };
        inner
    }

    /// Sets one parameter, overwriting any prior value under the same name.
    fn set(self, key: ParamName, value: String) -> (r: SearchOptionsBuilder)
        ensures
            r@ =~= self@.insert(key, value@),
    {
        proof {
            use_type_invariant(&self);
        }
        let SearchOptionsBuilder { mut params } = self;
        insert_param(&mut params, key, value);
        SearchOptionsBuilder { params }
    }

    /// Sets `fields` to the given names, joined with commas.
    pub fn fields(self, fs: Vec<String>) -> (r: SearchOptionsBuilder)
        ensures
            r@ =~= self@.insert(ParamName::Fields, comma_join(crate::text::string_views(fs@))),
    {
        let joined = join_commas(&fs);
        self.set(ParamName::Fields, joined)
    }

    /// Sets `validateQuery`.
    pub fn validate(self, v: bool) -> (r: SearchOptionsBuilder)
        ensures
            r@ =~= self@.insert(ParamName::ValidateQuery, bool_text(v)),
    {
        self.set(ParamName::ValidateQuery, bool_string(v))
    }

    /// Sets `maxResults`.
    pub fn max_results(self, m: u64) -> (r: SearchOptionsBuilder)
        ensures
            r@ =~= self@.insert(ParamName::MaxResults, dec_digits(m as nat)),
    {
        self.set(ParamName::MaxResults, u64_string(m))
    }

    /// Sets `startAt`.
    pub fn start_at(self, s: u64) -> (r: SearchOptionsBuilder)
        ensures
            r@ =~= self@.insert(ParamName::StartAt, dec_digits(s as nat)),
    {
        self.set(ParamName::StartAt, u64_string(s))
    }

    /// Sets `type`.
    pub fn type_filter(self, t: &str) -> (r: SearchOptionsBuilder)
        ensures
            r@ =~= self@.insert(ParamName::TypeName, t@),
    {
        self.set(ParamName::TypeName, String::from_str(t))
    }

    /// Sets `name`.
    pub fn name(self, n: &str) -> (r: SearchOptionsBuilder)
        ensures
            r@ =~= self@.insert(ParamName::Name, n@),
    {
        self.set(ParamName::Name, String::from_str(n))
    }

    /// Sets `projectKeyOrId`.
    pub fn project_key_or_id(self, id: &str) -> (r: SearchOptionsBuilder)
        ensures
            r@ =~= self@.insert(ParamName::ProjectKeyOrId, id@),
    {
        self.set(ParamName::ProjectKeyOrId, String::from_str(id))
    }

    /// Sets `expand` to the given names, joined with commas.
    pub fn expand(self, ex: Vec<String>) -> (r: SearchOptionsBuilder)
        ensures
            r@ =~= self@.insert(ParamName::Expand, comma_join(crate::text::string_views(ex@))),
    {
        let joined = join_commas(&ex);
        self.set(ParamName::Expand, joined)
    }

    /// Sets `state`.
    pub fn state(self, s: &str) -> (r: SearchOptionsBuilder)
        ensures
            r@ =~= self@.insert(ParamName::State, s@),
    {
        self.set(ParamName::State, String::from_str(s))
    }

    /// Sets `jql`.
    pub fn jql(self, s: &str) -> (r: SearchOptionsBuilder)
        ensures
            r@ =~= self@.insert(ParamName::Jql, s@),
    {
        self.set(ParamName::Jql, String::from_str(s))
    }

    /// Sets `validateQuery`.
    pub fn validate_query(self, v: bool) -> (r: SearchOptionsBuilder)
        ensures
            r@ =~= self@.insert(ParamName::ValidateQuery, bool_text(v)),
    {
        self.set(ParamName::ValidateQuery, bool_string(v))
    }

    /// Builds the immutable options value holding the set parameters.
    pub fn build(&self) -> (r: SearchOptions)
        ensures
            r@ == self@,
    {
        proof {
            use_type_invariant(self);
        }
        SearchOptions { params: copy_params(&self.params) }
    }
}

} // verus!
