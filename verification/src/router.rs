//! The provider router: an ordered collection of adapter names with one
//! default, the trial order it induces, and the fallback algorithm that
//! turns per-adapter outcomes into a single completion result.

use vstd::prelude::*;

use crate::error::{AIError, ErrorView};
use crate::text::{join_strings, lemma_join_has_each_part, spec_contains, spec_join, str_eq};
use crate::types::{AIConfig, AIResponse, ResponseView};

verus! {

/// The index of the first entry of `names` equal to `name`, if any.
pub open spec fn spec_find(names: Seq<Seq<char>>, name: Seq<char>) -> Option<int>
    decreases names.len(),
{
    if names.len() == 0 {
        None
    } else if names[0] == name {
        Some(0)
    } else {
        match spec_find(names.drop_first(), name) {
            Some(i) => Some(i + 1),
            None => None,
        }
    }
}

/// `spec_find` returns the first match, and `None` only when nothing
/// matches.
pub proof fn lemma_spec_find(names: Seq<Seq<char>>, name: Seq<char>)
    ensures
        match spec_find(names, name) {
            Some(i) => 0 <= i < names.len() && names[i] == name && forall|j: int|
                0 <= j < i ==> names[j] != name,
            None => forall|j: int| 0 <= j < names.len() ==> names[j] != name,
        },
    decreases names.len(),
{
    if names.len() > 0 && names[0] != name {
        lemma_spec_find(names.drop_first(), name);
        assert(forall|j: int|
            1 <= j < names.len() ==> names[j] == names.drop_first()[j - 1]);
    }
}

/// The order in which the router tries its adapters: the default first
/// when it is registered, then the rest in registration order.
pub open spec fn spec_trial_order(names: Seq<Seq<char>>, default: Seq<char>) -> Seq<int> {
    match spec_find(names, default) {
        Some(d) => seq![d] + Seq::new((names.len() - 1) as nat, |j: int| if j < d { j } else { j + 1 }),
        None => Seq::new(names.len(), |j: int| j),
    }
}

/// Every entry of the trial order is a valid index.
pub proof fn lemma_trial_order_bounds(names: Seq<Seq<char>>, default: Seq<char>)
    ensures
        spec_trial_order(names, default).len() == names.len(),
        forall|j: int|
            0 <= j < names.len() ==> 0 <= #[trigger] spec_trial_order(names, default)[j]
                < names.len(),
{
    lemma_spec_find(names, default);
}

/// What one adapter did when the router tried it.
#[derive(Debug)]
pub enum AttemptOutcome {
    /// The availability probe said no; the adapter was not invoked.
    Unavailable,
    /// The adapter was invoked and its completion call failed.
    Failed(AIError),
    /// The adapter was invoked and returned a completion.
    Succeeded(AIResponse),
}

/// The mathematical shape of an [`AttemptOutcome`].
pub ghost enum OutcomeView {
    Unavailable,
    Failed(ErrorView),
    Succeeded(ResponseView),
}

impl View for AttemptOutcome {
    type V = OutcomeView;

    open spec fn view(&self) -> OutcomeView {
        match self {
            AttemptOutcome::Unavailable => OutcomeView::Unavailable,
            AttemptOutcome::Failed(e) => OutcomeView::Failed(e@),
            AttemptOutcome::Succeeded(r) => OutcomeView::Succeeded(r@),
        }
    }
}

/// Copy an outcome; the copy has the same view.
pub fn clone_outcome(o: &AttemptOutcome) -> (r: AttemptOutcome)
    ensures
        r@ == o@,
{
    match o {
        AttemptOutcome::Unavailable => AttemptOutcome::Unavailable,
        AttemptOutcome::Failed(e) => AttemptOutcome::Failed(clone_error(e)),
        AttemptOutcome::Succeeded(a) => AttemptOutcome::Succeeded(
            AIResponse {
                content: a.content.clone(),
                provider: a.provider.clone(),
                tokens: a.tokens,
            },
        ),
    }
}

/// Copy an error; the copy has the same view.
pub fn clone_error(e: &AIError) -> (r: AIError)
    ensures
        r@ == e@,
{
    match e {
        AIError::Network(s) => AIError::Network(s.clone()),
        AIError::ProviderUnavailable(s) => AIError::ProviderUnavailable(s.clone()),
        AIError::InvalidConfig(s) => AIError::InvalidConfig(s.clone()),
        AIError::ApiError(s) => AIError::ApiError(s.clone()),
        AIError::Serialization(s) => AIError::Serialization(s.clone()),
    }
}

/// The view of a routing result.
pub open spec fn result_view(r: Result<AIResponse, AIError>) -> Result<ResponseView, ErrorView> {
    match r {
        Ok(a) => Ok(a@),
        Err(e) => Err(e@),
    }
}

/// The line recorded for an adapter that was tried without success:
/// its name, then why it did not answer.
pub open spec fn spec_label(name: Seq<char>, o: OutcomeView) -> Seq<char> {
    match o {
        OutcomeView::Unavailable => name + " (unavailable)"@,
        OutcomeView::Failed(e) => name + " ("@ + e.text() + ")"@,
        OutcomeView::Succeeded(_) => name,
    }
}

/// The recorded lines for a run of tried adapters, position by position.
pub open spec fn spec_labels(names: Seq<Seq<char>>, outs: Seq<OutcomeView>) -> Seq<Seq<char>> {
    Seq::new(outs.len(), |j: int| spec_label(names[j], outs[j]))
}

/// The error remembered after a run of outcomes: the error of the most
/// recent failed attempt, if any.
pub open spec fn spec_last_err(outs: Seq<OutcomeView>) -> Option<ErrorView>
    decreases outs.len(),
{
    if outs.len() == 0 {
        None
    } else {
        match spec_last_err(outs.drop_first()) {
            Some(e) => Some(e),
            None => match outs[0] {
                OutcomeView::Failed(e) => Some(e),
                _ => None,
            },
        }
    }
}

/// `prior` overridden by any later failure in `outs`.
pub open spec fn spec_merge_err(prior: Option<ErrorView>, outs: Seq<OutcomeView>) -> Option<
    ErrorView,
> {
    match spec_last_err(outs) {
        Some(e) => Some(e),
        None => prior,
    }
}

/// The fallback algorithm over one trial order. `ordered` holds the
/// adapter names in trial order and `outs` the outcome each would give,
/// position by position; `tried` and `last` accumulate the lines and the
/// error of the attempts already made. The first success wins; when the
/// order is exhausted the result is the last failure, or, when no adapter
/// was ever invoked, an error whose text lists every adapter tried.
pub open spec fn spec_route(
    ordered: Seq<Seq<char>>,
    outs: Seq<OutcomeView>,
    tried: Seq<Seq<char>>,
    last: Option<ErrorView>,
) -> Result<ResponseView, ErrorView>
    decreases outs.len(),
{
    if outs.len() == 0 || ordered.len() == 0 {
        match last {
            Some(e) => Err(e),
            None => Err(
                ErrorView::ProviderUnavailable(
                    "All providers failed: "@ + spec_join(tried, " → "@),
                ),
            ),
        }
    } else {
        match outs[0] {
            OutcomeView::Succeeded(r) => Ok(r),
            OutcomeView::Unavailable => spec_route(
                ordered.drop_first(),
                outs.drop_first(),
                tried.push(spec_label(ordered[0], outs[0])),
                last,
            ),
            OutcomeView::Failed(e) => spec_route(
                ordered.drop_first(),
                outs.drop_first(),
                tried.push(spec_label(ordered[0], outs[0])),
                Some(e),
            ),
        }
    }
}

/// The names rearranged into trial order.
pub open spec fn spec_ordered_names(names: Seq<Seq<char>>, order: Seq<int>) -> Seq<Seq<char>> {
    Seq::new(order.len(), |j: int| names[order[j]])
}

/// Per-adapter outcomes rearranged into trial order.
pub open spec fn spec_ordered_outs(outs: Seq<OutcomeView>, order: Seq<int>) -> Seq<OutcomeView> {
    Seq::new(order.len(), |j: int| outs[order[j]])
}

/// What a completion call returns, as a function of the registered
/// names, the default name, and the outcome each adapter would give
/// (indexed by registration order).
pub open spec fn spec_complete(
    names: Seq<Seq<char>>,
    default: Seq<char>,
    outs: Seq<OutcomeView>,
) -> Result<ResponseView, ErrorView> {
    if names.len() == 0 {
        Err(ErrorView::ProviderUnavailable("No providers configured"@))
    } else {
        let order = spec_trial_order(names, default);
        spec_route(
            spec_ordered_names(names, order),
            spec_ordered_outs(outs, order),
            Seq::<Seq<char>>::empty(),
            None,
        )
    }
}

/// Advancing the fallback over a run of unsuccessful attempts only moves
/// the accumulators: the result is unchanged.
pub proof fn lemma_route_advance(
    ordered: Seq<Seq<char>>,
    outs: Seq<OutcomeView>,
    tried: Seq<Seq<char>>,
    last: Option<ErrorView>,
    p: int,
)
    requires
        0 <= p <= outs.len(),
        outs.len() <= ordered.len(),
        forall|j: int| 0 <= j < p ==> !((#[trigger] outs[j]) is Succeeded),
    ensures
        spec_route(ordered, outs, tried, last) == spec_route(
            ordered.skip(p),
            outs.skip(p),
            tried + spec_labels(ordered.take(p), outs.take(p)),
            spec_merge_err(last, outs.take(p)),
        ),
    decreases p,
{
    if p == 0 {
        assert(outs.skip(0) =~= outs);
        assert(ordered.skip(0) =~= ordered);
        assert(tried + spec_labels(ordered.take(0), outs.take(0)) =~= tried);
        assert(spec_last_err(outs.take(0)) is None);
    } else {
        let o0 = outs[0];
        let tried1 = tried.push(spec_label(ordered[0], o0));
        let last1 = match o0 {
            OutcomeView::Failed(e) => Some(e),
            _ => last,
        };
        lemma_route_advance(ordered.drop_first(), outs.drop_first(), tried1, last1, p - 1);
        assert(spec_route(ordered, outs, tried, last) == spec_route(
            ordered.drop_first(),
            outs.drop_first(),
            tried1,
            last1,
        ));
        assert(ordered.drop_first().skip(p - 1) =~= ordered.skip(p));
        assert(outs.drop_first().skip(p - 1) =~= outs.skip(p));
        assert(tried1 + spec_labels(ordered.drop_first().take(p - 1), outs.drop_first().take(p - 1))
            =~= tried + spec_labels(ordered.take(p), outs.take(p)));
        lemma_last_err_split(outs.take(p));
        assert(outs.take(p).drop_first() =~= outs.drop_first().take(p - 1));
        assert(spec_merge_err(last1, outs.drop_first().take(p - 1)) == spec_merge_err(
            last,
            outs.take(p),
        ));
    }
}

/// `spec_last_err` of a non-empty run, split at its first element.
pub proof fn lemma_last_err_split(outs: Seq<OutcomeView>)
    requires
        outs.len() > 0,
    ensures
        spec_last_err(outs) == (match spec_last_err(outs.drop_first()) {
            Some(e) => Some(e),
            None => match outs[0] {
                OutcomeView::Failed(e) => Some(e),
                _ => None,
            },
        }),
{
}

/// The first success in the trial order decides the result, whatever
/// stands before it (unavailability or failures) and whatever follows.
pub proof fn lemma_route_first_success(
    ordered: Seq<Seq<char>>,
    outs: Seq<OutcomeView>,
    p: int,
)
    requires
        0 <= p < outs.len(),
        outs.len() <= ordered.len(),
        forall|j: int| 0 <= j < p ==> !((#[trigger] outs[j]) is Succeeded),
        outs[p] is Succeeded,
    ensures
        spec_route(ordered, outs, Seq::<Seq<char>>::empty(), None) == Ok::<
            ResponseView,
            ErrorView,
        >(outs[p]->Succeeded_0),
{
    lemma_route_advance(ordered, outs, Seq::<Seq<char>>::empty(), None, p);
    assert(outs.skip(p)[0] == outs[p]);
}

/// Entries after the first success never matter: the fallback stops
/// there and later adapters are not consulted.
pub proof fn lemma_route_ignores_after_success(
    ordered: Seq<Seq<char>>,
    outs1: Seq<OutcomeView>,
    outs2: Seq<OutcomeView>,
    p: int,
)
    requires
        0 <= p < outs1.len(),
        outs1.len() <= ordered.len(),
        outs2.len() <= ordered.len(),
        p < outs2.len(),
        forall|j: int| 0 <= j <= p ==> (#[trigger] outs1[j]) == outs2[j],
        forall|j: int| 0 <= j < p ==> !((#[trigger] outs1[j]) is Succeeded),
        outs1[p] is Succeeded,
    ensures
        spec_route(ordered, outs1, Seq::<Seq<char>>::empty(), None) == spec_route(
            ordered,
            outs2,
            Seq::<Seq<char>>::empty(),
            None,
        ),
{
    lemma_route_first_success(ordered, outs1, p);
    assert forall|j: int| 0 <= j < p implies !((#[trigger] outs2[j]) is Succeeded) by {
        assert(outs1[j] == outs2[j]);
    };
    assert(outs2[p] == outs1[p]);
    lemma_route_first_success(ordered, outs2, p);
}

/// A fallback that exhausts the order fails with the most recent
/// failure; when every adapter was unavailable, with an error whose text
/// lists every adapter, in trial order.
pub proof fn lemma_route_exhausted(ordered: Seq<Seq<char>>, outs: Seq<OutcomeView>)
    requires
        outs.len() == ordered.len(),
        forall|j: int| 0 <= j < outs.len() ==> !((#[trigger] outs[j]) is Succeeded),
    ensures
        spec_route(ordered, outs, Seq::<Seq<char>>::empty(), None) == (match spec_last_err(outs) {
            Some(e) => Err::<ResponseView, ErrorView>(e),
            None => Err(
                ErrorView::ProviderUnavailable(
                    "All providers failed: "@ + spec_join(spec_labels(ordered, outs), " → "@),
                ),
            ),
        }),
{
    let p = outs.len() as int;
    lemma_route_advance(ordered, outs, Seq::<Seq<char>>::empty(), None, p);
    assert(outs.take(p) =~= outs);
    assert(ordered.take(p) =~= ordered);
    assert(Seq::<Seq<char>>::empty() + spec_labels(ordered, outs) =~= spec_labels(ordered, outs));
}

/// When every adapter is unavailable, the completion error names each
/// registered adapter in its text.
pub proof fn lemma_route_all_unavailable_enumerates(
    ordered: Seq<Seq<char>>,
    outs: Seq<OutcomeView>,
    i: int,
)
    requires
        outs.len() == ordered.len(),
        ordered.len() > 0,
        forall|j: int| 0 <= j < outs.len() ==> (#[trigger] outs[j]) is Unavailable,
        0 <= i < ordered.len(),
    ensures
        spec_route(ordered, outs, Seq::<Seq<char>>::empty(), None) matches Err(e) && e matches
            ErrorView::ProviderUnavailable(msg) && spec_contains(msg, ordered[i]),
{
    lemma_route_exhausted(ordered, outs);
    lemma_last_err_none(outs);
    let labels = spec_labels(ordered, outs);
    let joined = spec_join(labels, " → "@);
    let msg = "All providers failed: "@ + joined;
    let k0 = lemma_join_has_each_part(labels, " → "@, i);
    let k = "All providers failed: "@.len() + k0;
    assert(labels[i] == spec_label(ordered[i], outs[i]));
    assert(labels[i] == ordered[i] + " (unavailable)"@);
    assert(msg.subrange(k, k + labels[i].len()) =~= joined.subrange(k0, k0 + labels[i].len()));
    assert(msg.subrange(k, k + ordered[i].len()) =~= ordered[i]);
    assert(spec_contains(msg, ordered[i]));
}

/// A run of unavailable outcomes remembers no failure.
pub proof fn lemma_last_err_none(outs: Seq<OutcomeView>)
    requires
        forall|j: int| 0 <= j < outs.len() ==> (#[trigger] outs[j]) is Unavailable,
    ensures
        spec_last_err(outs) is None,
    decreases outs.len(),
{
    if outs.len() > 0 {
        lemma_last_err_none(outs.drop_first());
    }
}

/// Whenever the first adapter of the trial order is available and
/// succeeds, the completion call returns its result, regardless of every
/// other adapter's state.
pub proof fn lemma_complete_first_trial(
    names: Seq<Seq<char>>,
    default: Seq<char>,
    outs: Seq<OutcomeView>,
)
    requires
        names.len() > 0,
        outs.len() == names.len(),
        outs[spec_trial_order(names, default)[0]] is Succeeded,
    ensures
        spec_complete(names, default, outs) == Ok::<ResponseView, ErrorView>(
            outs[spec_trial_order(names, default)[0]]->Succeeded_0,
        ),
{
    lemma_trial_order_bounds(names, default);
    let order = spec_trial_order(names, default);
    let on = spec_ordered_names(names, order);
    let oo = spec_ordered_outs(outs, order);
    assert(oo[0] == outs[order[0]]);
    lemma_route_first_success(on, oo, 0);
}

/// When the first registered adapter is also first in the trial order
/// (the default names it, or names no adapter), its success is the
/// completion result, whatever the other adapters would do.
pub proof fn lemma_complete_first_registered(
    names: Seq<Seq<char>>,
    default: Seq<char>,
    outs: Seq<OutcomeView>,
)
    requires
        names.len() > 0,
        outs.len() == names.len(),
        spec_find(names, default) is None || spec_find(names, default) == Some(0int),
        outs[0] is Succeeded,
    ensures
        spec_complete(names, default, outs) == Ok::<ResponseView, ErrorView>(outs[0]->Succeeded_0),
{
    assert(spec_trial_order(names, default)[0] == 0);
    lemma_complete_first_trial(names, default, outs);
}

/// Every registered adapter occurs in the trial order; the returned
/// position locates `i`.
pub proof fn lemma_trial_order_onto(names: Seq<Seq<char>>, default: Seq<char>, i: int) -> (p: int)
    requires
        0 <= i < names.len(),
    ensures
        0 <= p < names.len(),
        spec_trial_order(names, default)[p] == i,
{
    lemma_spec_find(names, default);
    match spec_find(names, default) {
        Some(d) => {
            if i == d {
                0
            } else if i < d {
                i + 1
            } else {
                i
            }
        },
        None => i,
    }
}

/// When every registered adapter is unavailable, the completion call
/// fails with an error whose text names each registered adapter.
pub proof fn lemma_complete_all_unavailable(
    names: Seq<Seq<char>>,
    default: Seq<char>,
    outs: Seq<OutcomeView>,
    i: int,
)
    requires
        names.len() > 0,
        outs.len() == names.len(),
        forall|j: int| 0 <= j < outs.len() ==> (#[trigger] outs[j]) is Unavailable,
        0 <= i < names.len(),
    ensures
        spec_complete(names, default, outs) matches Err(e) && e matches
            ErrorView::ProviderUnavailable(msg) && spec_contains(msg, names[i]),
{
    lemma_trial_order_bounds(names, default);
    let order = spec_trial_order(names, default);
    let on = spec_ordered_names(names, order);
    let oo = spec_ordered_outs(outs, order);
    assert(forall|j: int| 0 <= j < oo.len() ==> (#[trigger] oo[j]) is Unavailable);
    let p = lemma_trial_order_onto(names, default, i);
    assert(on[p] == names[i]);
    lemma_route_all_unavailable_enumerates(on, oo, p);
}

/// Router over an ordered collection of adapter names. The adapters
/// themselves perform I/O and live with the caller; the router owns the
/// ordering, the default choice and the fallback decisions.
pub struct AIProviderManager {
    /// Registered adapter names, in registration order.
    pub providers: Vec<String>,
    /// Name of the adapter to try first.
    pub default_provider: String,
}

impl AIProviderManager {
    /// The registered names as character sequences, in order.
    pub open spec fn names(self) -> Seq<Seq<char>> {
        self.providers@.map_values(|p: String| p@)
    }

    /// The default adapter name as a character sequence.
    pub open spec fn default_name(self) -> Seq<char> {
        self.default_provider@
    }

    /// Well-formedness: no two registered adapters share a name.
    pub open spec fn wf(self) -> bool {
        forall|i: int, j: int|
            0 <= i < j < self.names().len() ==> self.names()[i] != self.names()[j]
    }

    /// Whether the configuration carries a usable vendor API key.
    pub open spec fn spec_has_openai_key(config: AIConfig) -> bool {
        config.openai_api_key matches Some(k) && k@.len() > 0
    }

    /// Build the router from its configuration: the proxy-relay adapter
    /// is always registered; the direct-vendor adapter only when a
    /// non-empty API key is configured.
    pub fn new(config: AIConfig) -> (m: AIProviderManager)
        ensures
            m.wf(),
            m.default_name() == config.default_provider@,
            Self::spec_has_openai_key(config) ==> m.names() =~= seq!["cliproxyapi"@, "openai"@],
            !Self::spec_has_openai_key(config) ==> m.names() =~= seq!["cliproxyapi"@],
    {
        proof {
            reveal_strlit("cliproxyapi");
            reveal_strlit("openai");
        }
        let mut providers: Vec<String> = Vec::new();
        providers.push("cliproxyapi".to_owned());
        match &config.openai_api_key {
            Some(key) => {
                if !key.as_str().is_empty() {
                    providers.push("openai".to_owned());
                }
            },
            None => {},
        }
        let m = AIProviderManager { providers, default_provider: config.default_provider };
        proof {
            assert("cliproxyapi"@.len() == 11);
            assert("openai"@.len() == 6);
            if Self::spec_has_openai_key(config) {
                assert(m.names() =~= seq!["cliproxyapi"@, "openai"@]);
            } else {
                assert(m.names() =~= seq!["cliproxyapi"@]);
            }
        }
        m
    }

    /// Register one more adapter name at the end of the order. A name
    /// already registered is rejected: a duplicate entry would be
    /// unreachable by name-based lookup.
    pub fn register_provider(&mut self, name: String) -> (r: Result<(), AIError>)
        requires
            old(self).wf(),
        ensures
            final(self).wf(),
            final(self).default_name() == old(self).default_name(),
            spec_find(old(self).names(), name@) is None ==> (r is Ok && final(self).names()
                == old(self).names().push(name@)),
            spec_find(old(self).names(), name@) is Some ==> (final(self).names() == old(
                self,
            ).names() && (r matches Err(e) && e@ == ErrorView::InvalidConfig(
                "Provider '"@ + name@ + "' is already registered"@,
            ))),
    {
        let ghost n = name@;
        match self.find_index(name.as_str()) {
            Some(_) => {
                let mut msg = "Provider '".to_owned();
                msg.append(name.as_str());
                msg.append("' is already registered");
                Err(AIError::InvalidConfig(msg))
            },
            None => {
                self.providers.push(name);
                proof {
                    lemma_spec_find(old(self).names(), n);
                    assert(self.names() =~= old(self).names().push(n));
                    assert forall|i: int, j: int|
                        0 <= i < j < self.names().len() implies self.names()[i]
                        != self.names()[j] by {
                        if j < old(self).names().len() {
                            assert(old(self).names()[i] != old(self).names()[j]);
                        } else {
                            assert(self.names()[i] == old(self).names()[i]);
                            assert(old(self).names()[i] != n);
                        }
                    };
                }
                Ok(())
            },
        }
    }

    /// All registered adapter names, in registration order.
    pub fn list_providers(&self) -> (r: Vec<String>)
        ensures
            r@.map_values(|p: String| p@) == self.names(),
    {
        let mut r: Vec<String> = Vec::new();
        let mut i: usize = 0;
        while i < self.providers.len()
            invariant
                i <= self.providers.len(),
                r@.len() == i,
                forall|k: int| 0 <= k < i ==> (#[trigger] r@[k])@ == self.providers@[k]@,
            decreases self.providers.len() - i,
        {
            r.push(self.providers[i].clone());
            i = i + 1;
        }
        proof {
            assert(r@.map_values(|p: String| p@) =~= self.names());
        }
        r
    }

    /// The index of the first registered adapter called `name`, if any.
    fn find_index(&self, name: &str) -> (r: Option<usize>)
        ensures
            match r {
                Some(i) => spec_find(self.names(), name@) == Some(i as int),
                None => spec_find(self.names(), name@) is None,
            },
    {
        let mut i: usize = 0;
        while i < self.providers.len()
            invariant
                i <= self.providers.len(),
                forall|j: int| 0 <= j < i ==> self.names()[j] != name@,
            decreases self.providers.len() - i,
        {
            if str_eq(self.providers[i].as_str(), name) {
                proof {
                    lemma_spec_find(self.names(), name@);
                    assert(self.names()[i as int] == self.providers@[i as int]@);
                    match spec_find(self.names(), name@) {
                        Some(k) => {
                            if k < i {
                                assert(self.names()[k] != name@);
                            }
                            if k > i {
                                assert(self.names()[i as int] != name@);
                            }
                        },
                        None => {
                            assert(self.names()[i as int] == name@);
                        },
                    }
                }
                return Some(i);
            }
            i = i + 1;
        }
        proof {
            lemma_spec_find(self.names(), name@);
        }
        None
    }

    /// Replace the default adapter name. Fails, changing nothing, when
    /// no registered adapter has the given name.
    pub fn set_default_provider(&mut self, name: String) -> (r: Result<(), AIError>)
        ensures
            final(self).names() == old(self).names(),
            old(self).wf() ==> final(self).wf(),
            spec_find(old(self).names(), name@) is Some ==> r is Ok && final(self).default_name()
                == name@,
            spec_find(old(self).names(), name@) is None ==> ({
                &&& final(self).default_name() == old(self).default_name()
                &&& r matches Err(e) && e@ == ErrorView::ProviderUnavailable(
                    "Provider '"@ + name@ + "' not found"@,
                )
            }),
    {
        match self.find_index(name.as_str()) {
            Some(_) => {
                self.default_provider = name;
                Ok(())
            },
            None => {
                let mut msg = "Provider '".to_owned();
                msg.append(name.as_str());
                msg.append("' not found");
                Err(AIError::ProviderUnavailable(msg))
            },
        }
    }

    /// The current default adapter name, whether or not that adapter is
    /// currently available.
    pub fn get_default_provider(&self) -> (r: &str)
        ensures
            r@ == self.default_name(),
    {
        self.default_provider.as_str()
    }

    /// Whether the adapter called `name` is available, given one probe
    /// answer per registered adapter. An unknown name is simply
    /// unavailable, not an error.
    pub fn is_provider_available(&self, name: &str, probes: &Vec<bool>) -> (r: bool)
        requires
            probes@.len() == self.names().len(),
        ensures
            r == match spec_find(self.names(), name@) {
                Some(i) => probes@[i],
                None => false,
            },
    {
        match self.find_index(name) {
            Some(i) => {
                proof {
                    lemma_spec_find(self.names(), name@);
                }
                probes[i]
            },
            None => false,
        }
    }

    /// The order in which a completion call tries the adapters: the
    /// default first when registered, then the rest in registration
    /// order.
    pub fn trial_order(&self) -> (r: Vec<usize>)
        ensures
            r@.map_values(|u: usize| u as int) == spec_trial_order(self.names(), self.default_name()),
            forall|j: int| 0 <= j < r@.len() ==> (#[trigger] r@[j]) < self.providers@.len(),
    {
        proof {
            lemma_spec_find(self.names(), self.default_name());
        }
        let mut r: Vec<usize> = Vec::new();
        match self.find_index(self.default_provider.as_str()) {
            Some(d) => {
                r.push(d);
                let mut i: usize = 0;
                while i < self.providers.len()
                    invariant
                        i <= self.providers.len(),
                        d < self.providers.len(),
                        spec_find(self.names(), self.default_name()) == Some(d as int),
                        r@.len() == (if i <= d { i + 1 } else { i as int }),
                        r@[0] == d,
                        forall|k: int|
                            1 <= k < r@.len() ==> (#[trigger] r@[k]) as int == (if k - 1 < d {
                                k - 1
                            } else {
                                k as int
                            }),
                        forall|k: int| 0 <= k < r@.len() ==> (#[trigger] r@[k]) < self.providers@.len(),
                    decreases self.providers.len() - i,
                {
                    if i != d {
                        r.push(i);
                    }
                    i = i + 1;
                }
                proof {
                    assert(r@.map_values(|u: usize| u as int) =~= spec_trial_order(
                        self.names(),
                        self.default_name(),
                    ));
                }
            },
            None => {
                let mut i: usize = 0;
                while i < self.providers.len()
                    invariant
                        i <= self.providers.len(),
                        r@.len() == i,
                        forall|k: int| 0 <= k < i ==> (#[trigger] r@[k]) as int == k,
                    decreases self.providers.len() - i,
                {
                    r.push(i);
                    i = i + 1;
                }
                proof {
                    assert(r@.map_values(|u: usize| u as int) =~= spec_trial_order(
                        self.names(),
                        self.default_name(),
                    ));
                }
            },
        }
        r
    }
    /// Open a completion call: snapshot the names and the trial order.
    /// Fails at once when no adapter is registered.
    pub fn begin_complete(&self) -> (r: Result<FallbackSession, AIError>)
        ensures
            self.names().len() == 0 ==> (r matches Err(e) && e@ == ErrorView::ProviderUnavailable(
                "No providers configured"@,
            )),
            self.names().len() > 0 ==> (r matches Ok(s) && s.wf() && s.pos == 0 && s.names_view()
                == self.names() && s.order_view() == spec_trial_order(
                self.names(),
                self.default_name(),
            ) && s.reported@ == Seq::<OutcomeView>::empty()),
    {
        if self.providers.len() == 0 {
            return Err(AIError::ProviderUnavailable("No providers configured".to_owned()));
        }
        let order = self.trial_order();
        let names = self.list_providers();
        let s = FallbackSession {
            names,
            order,
            pos: 0,
            tried: Vec::new(),
            last_error: None,
            reported: Ghost(Seq::empty()),
        };
        proof {
            assert(s.tried@.map_values(|t: String| t@) =~= spec_labels(
                s.ordered().take(0),
                s.reported@,
            ));
        }
        Ok(s)
    }

    /// Route one completion call, given the outcome each adapter would
    /// produce for it (indexed by registration order). This is the
    /// fallback loop of a completion call taken all at once; a caller
    /// that must invoke adapters one by one drives a
    /// [`FallbackSession`] instead and reaches the same result.
    pub fn complete(&self, outcomes: &Vec<AttemptOutcome>) -> (r: Result<AIResponse, AIError>)
        requires
            outcomes@.len() == self.names().len(),
        ensures
            result_view(r) == spec_complete(
                self.names(),
                self.default_name(),
                outcomes@.map_values(|o: AttemptOutcome| o@),
            ),
    {
        let ghost outs_all = outcomes@.map_values(|o: AttemptOutcome| o@);
        let ghost order_spec = spec_trial_order(self.names(), self.default_name());
        let ghost ordered_outs = spec_ordered_outs(outs_all, order_spec);
        let mut session = match self.begin_complete() {
            Err(e) => {
                return Err(e);
            },
            Ok(s) => s,
        };
        proof {
            assert(session.reported@ =~= ordered_outs.take(0));
        }
        loop
            invariant
                session.wf(),
                session.pos < session.order@.len(),
                session.names_view() == self.names(),
                session.order_view() == order_spec,
                session.reported@ =~= ordered_outs.take(session.pos as int),
                outs_all == outcomes@.map_values(|o: AttemptOutcome| o@),
                order_spec == spec_trial_order(self.names(), self.default_name()),
                ordered_outs == spec_ordered_outs(outs_all, order_spec),
                outcomes@.len() == self.names().len(),
                self.names().len() > 0,
            decreases session.order@.len() - session.pos,
        {
            let ghost oldpos = session.pos as int;
            let i = session.order[session.pos];
            proof {
                assert(session.order_view()[oldpos] == i as int);
                assert(ordered_outs[oldpos] == outs_all[i as int]);
            }
            let out = clone_outcome(&outcomes[i]);
            let ghost reported_next = session.reported@.push(out@);
            match session.report(out) {
                Some(res) => {
                    proof {
                        let ordered = spec_ordered_names(self.names(), order_spec);
                        assert(session.ordered() == ordered);
                        assert(reported_next =~= ordered_outs.take(oldpos + 1));
                        if ordered_outs[oldpos] is Succeeded {
                            assert(forall|j: int|
                                0 <= j <= oldpos ==> (#[trigger] reported_next[j])
                                    == ordered_outs[j]);
                            lemma_route_ignores_after_success(
                                ordered,
                                reported_next,
                                ordered_outs,
                                oldpos,
                            );
                        } else {
                            assert(oldpos + 1 == session.order@.len());
                            assert(reported_next =~= ordered_outs);
                        }
                    }
                    return res;
                },
                None => {
                    proof {
                        assert(session.reported@ =~= ordered_outs.take(oldpos + 1));
                    }
                },
            }
        }
    }
}

/// One in-flight completion call of the router. The adapter probes and
/// attempts are I/O and belong to the caller: the session hands out the
/// next candidate name, the caller reports what that adapter did, and
/// the session answers with the routed result the moment one is decided.
pub struct FallbackSession {
    /// The registered names, snapshot at the start of the call.
    pub names: Vec<String>,
    /// The trial order: indices into `names`.
    pub order: Vec<usize>,
    /// The next position of `order` to try.
    pub pos: usize,
    /// One line per adapter tried so far without success.
    pub tried: Vec<String>,
    /// The most recent attempt failure, if any.
    pub last_error: Option<AIError>,
    /// The outcomes reported so far, in trial order.
    pub reported: Ghost<Seq<OutcomeView>>,
}

impl FallbackSession {
    /// The snapshot names as character sequences.
    pub open spec fn names_view(self) -> Seq<Seq<char>> {
        self.names@.map_values(|p: String| p@)
    }

    /// The trial order as mathematical indices.
    pub open spec fn order_view(self) -> Seq<int> {
        self.order@.map_values(|u: usize| u as int)
    }

    /// The names in trial order.
    pub open spec fn ordered(self) -> Seq<Seq<char>> {
        spec_ordered_names(self.names_view(), self.order_view())
    }

    /// The view of the remembered failure.
    pub open spec fn last_err_view(self) -> Option<ErrorView> {
        match self.last_error {
            Some(e) => Some(e@),
            None => None,
        }
    }

    /// The session's bookkeeping matches the outcomes reported so far:
    /// the position counts them, none of them succeeded (a success ends
    /// the session), the recorded lines are their labels, and the
    /// remembered failure is the most recent one.
    pub open spec fn wf(self) -> bool {
        &&& forall|j: int|
            0 <= j < self.order_view().len() ==> 0 <= #[trigger] self.order_view()[j]
                < self.names_view().len()
        &&& self.pos <= self.order@.len()
        &&& self.reported@.len() == self.pos
        &&& forall|j: int|
            0 <= j < self.reported@.len() ==> !((#[trigger] self.reported@[j]) is Succeeded)
        &&& self.tried@.map_values(|s: String| s@) == spec_labels(
            self.ordered().take(self.pos as int),
            self.reported@,
        )
        &&& self.last_err_view() == spec_last_err(self.reported@)
    }

    /// The name of the adapter to probe and try next, or nothing when
    /// the order is exhausted.
    pub fn current_candidate(&self) -> (r: Option<String>)
        requires
            self.wf(),
        ensures
            self.pos < self.order@.len() ==> (r matches Some(n) && n@
                == self.ordered()[self.pos as int]),
            self.pos >= self.order@.len() ==> r is None,
    {
        if self.pos < self.order.len() {
            let i = self.order[self.pos];
            proof {
                assert(self.order_view()[self.pos as int] == i as int);
            }
            Some(self.names[i].clone())
        } else {
            None
        }
    }

    /// Report what the current candidate did. Returns the routed result
    /// when that outcome decides the call — a success, or the last
    /// candidate tried without one — and nothing while candidates
    /// remain.
    pub fn report(&mut self, outcome: AttemptOutcome) -> (r: Option<Result<AIResponse, AIError>>)
        requires
            old(self).wf(),
            old(self).pos < old(self).order@.len(),
        ensures
            final(self).names@ == old(self).names@,
            final(self).order@ == old(self).order@,
            final(self).pos == old(self).pos + 1,
            final(self).reported@ == old(self).reported@.push(outcome@),
            r is Some <==> (outcome@ is Succeeded || old(self).pos + 1 == old(self).order@.len()),
            r is None ==> final(self).wf(),
            r matches Some(res) ==> result_view(res) == spec_route(
                old(self).ordered(),
                old(self).reported@.push(outcome@),
                Seq::<Seq<char>>::empty(),
                None,
            ),
    {
        let ghost reported_next = self.reported@.push(outcome@);
        let pos = self.pos;
        let order_len = self.order.len();
        let i = self.order[pos];
        proof {
            assert(self.order_view()[pos as int] == i as int);
        }
        let name = self.names[i].clone();
        proof {
            assert(name@ == old(self).ordered()[pos as int]);
        }
        self.reported = Ghost(reported_next);
        self.pos = pos + 1;
        match outcome {
            AttemptOutcome::Succeeded(resp) => {
                proof {
                    lemma_route_first_success(old(self).ordered(), reported_next, pos as int);
                }
                Some(Ok(resp))
            },
            AttemptOutcome::Unavailable => {
                let mut label = name;
                label.append(" (unavailable)");
                let ghost label_view = label@;
                self.tried.push(label);
                proof {
                    lemma_last_err_push(old(self).reported@, outcome@);
                    assert(self.tried@.drop_last() =~= old(self).tried@);
                    self.lemma_report_bookkeeping(*old(self), label_view, outcome@);
                }
                self.finish_if_exhausted()
            },
            AttemptOutcome::Failed(e) => {
                let mut label = name;
                label.append(" (");
                let emsg = e.message();
                label.append(emsg.as_str());
                label.append(")");
                let ghost label_view = label@;
                self.tried.push(label);
                self.last_error = Some(e);
                proof {
                    lemma_last_err_push(old(self).reported@, outcome@);
                    assert(self.tried@.drop_last() =~= old(self).tried@);
                    self.lemma_report_bookkeeping(*old(self), label_view, outcome@);
                }
                self.finish_if_exhausted()
            },
        }
    }

    /// After an unsuccessful attempt is recorded, the tried lines match
    /// the labels of the reported outcomes.
    proof fn lemma_report_bookkeeping(
        &self,
        prev: FallbackSession,
        label_view: Seq<char>,
        o: OutcomeView,
    )
        requires
            prev.wf(),
            prev.pos < prev.order@.len(),
            self.names@ == prev.names@,
            self.order@ == prev.order@,
            self.pos == prev.pos + 1,
            self.reported@ == prev.reported@.push(o),
            self.tried@.len() == prev.tried@.len() + 1,
            self.tried@.drop_last() == prev.tried@,
            self.tried@.last()@ == label_view,
            label_view == spec_label(prev.ordered()[prev.pos as int], o),
        ensures
            self.tried@.map_values(|s: String| s@) == spec_labels(
                self.ordered().take(self.pos as int),
                self.reported@,
            ),
    {
        let onames = self.ordered();
        assert(onames == prev.ordered());
        assert(onames.len() == self.order@.len());
        let t_new = self.tried@.map_values(|s: String| s@);
        let t_old = prev.tried@.map_values(|s: String| s@);
        assert(prev.reported@.len() == prev.pos as int);
        assert(t_old.len() == prev.pos as int);
        assert(prev.tried@.len() == prev.pos as int);
        assert(t_new.len() == prev.pos + 1);
        let lbls = spec_labels(onames.take(self.pos as int), self.reported@);
        assert(lbls.len() == prev.pos + 1);
        assert forall|k: int| 0 <= k < t_new.len() implies t_new[k] == lbls[k] by {
            assert(onames.take(self.pos as int)[k] == onames[k]);
            assert(lbls[k] == spec_label(onames[k], self.reported@[k]));
            if k < prev.pos {
                assert(self.tried@[k] == self.tried@.drop_last()[k]);
                assert(self.tried@[k] == prev.tried@[k]);
                assert(t_new[k] == prev.tried@[k]@);
                assert(t_old[k] == prev.tried@[k]@);
                assert(t_old == spec_labels(onames.take(prev.pos as int), prev.reported@));
                assert(t_old[k] == spec_label(
                    onames.take(prev.pos as int)[k],
                    prev.reported@[k],
                ));
                assert(onames.take(prev.pos as int)[k] == onames[k]);
                assert(self.reported@[k] == prev.reported@[k]);
            } else {
                assert(k == prev.pos as int);
                assert(self.tried@[k] == self.tried@.last());
                assert(t_new[k] == label_view);
                assert(self.reported@[k] == o);
                assert(onames[k] == prev.ordered()[prev.pos as int]);
            }
        };
        assert(t_new =~= lbls);
    }

    /// After an unsuccessful attempt: the routed failure when the order
    /// is exhausted, nothing otherwise.
    fn finish_if_exhausted(&mut self) -> (r: Option<Result<AIResponse, AIError>>)
        requires
            old(self).pos <= old(self).order@.len(),
            old(self).reported@.len() == old(self).pos,
            forall|j: int|
                0 <= j < old(self).reported@.len() ==> !((#[trigger] old(self).reported@[j])
                    is Succeeded),
            old(self).tried@.map_values(|s: String| s@) == spec_labels(
                old(self).ordered().take(old(self).pos as int),
                old(self).reported@,
            ),
            old(self).last_err_view() == spec_last_err(old(self).reported@),
            forall|j: int|
                0 <= j < old(self).order_view().len() ==> 0 <= #[trigger] old(self).order_view()[j]
                    < old(self).names_view().len(),
        ensures
            *final(self) == *old(self),
            r is Some <==> old(self).pos == old(self).order@.len(),
            r is None ==> final(self).wf(),
            r matches Some(res) ==> result_view(res) == spec_route(
                old(self).ordered(),
                old(self).reported@,
                Seq::<Seq<char>>::empty(),
                None,
            ),
    {
        if self.pos < self.order.len() {
            return None;
        }
        proof {
            assert(self.ordered().take(self.pos as int) =~= self.ordered());
            lemma_route_exhausted(self.ordered(), self.reported@);
        }
        let res = match &self.last_error {
            Some(e) => Err(clone_error(e)),
            None => {
                let joined = join_strings(&self.tried, " → ");
                let mut msg = "All providers failed: ".to_owned();
                msg.append(joined.as_str());
                Err(AIError::ProviderUnavailable(msg))
            },
        };
        Some(res)
    }
}

/// Pushing one outcome onto a run updates the remembered failure: a new
/// failure replaces it, anything else leaves it.
pub proof fn lemma_last_err_push(outs: Seq<OutcomeView>, o: OutcomeView)
    ensures
        spec_last_err(outs.push(o)) == (match o {
            OutcomeView::Failed(e) => Some(e),
            _ => spec_last_err(outs),
        }),
    decreases outs.len(),
{
    if outs.len() == 0 {
        assert(outs.push(o).drop_first() =~= Seq::<OutcomeView>::empty());
        assert(spec_last_err(Seq::<OutcomeView>::empty()) is None);
        assert(outs.push(o)[0] == o);
    } else {
        lemma_last_err_push(outs.drop_first(), o);
        assert(outs.push(o).drop_first() =~= outs.drop_first().push(o));
        assert(outs.push(o)[0] == outs[0]);
        match o {
            OutcomeView::Failed(e) => {
                assert(spec_last_err(outs.drop_first().push(o)) == Some(e));
            },
            _ => {
                assert(spec_last_err(outs.drop_first().push(o)) == spec_last_err(
                    outs.drop_first(),
                ));
            },
        }
    }
}

} // verus!
