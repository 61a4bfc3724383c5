//! Log records and spans as they arrive: by resource, and by instrumentation scope in each.
use vstd::prelude::*;

verus! {

/// The log records of one instrumentation scope.
pub struct ScopeLogs<R> {
    pub log_records: Vec<R>,
}

/// The log records of one resource, by scope.
pub struct ResourceLogs<R> {
    pub scope_logs: Vec<ScopeLogs<R>>,
}

/// The spans of one instrumentation scope.
pub struct ScopeSpans<S> {
    pub spans: Vec<S>,
}

/// The spans of one resource, by scope.
pub struct ResourceSpans<S> {
    pub scope_spans: Vec<ScopeSpans<S>>,
}

/// The log records of some scopes, in order.
pub open spec fn scope_records<R>(scopes: Seq<ScopeLogs<R>>) -> Seq<R>
    decreases scopes.len(),
{
    if scopes.len() == 0 {
        Seq::empty()
    } else {
        scope_records(scopes.drop_last()) + scopes.last().log_records@
    }
}

/// The log records of some resources, in order: resource by resource, and scope by scope in each.
pub open spec fn all_records<R>(logs: Seq<ResourceLogs<R>>) -> Seq<R>
    decreases logs.len(),
{
    if logs.len() == 0 {
        Seq::empty()
    } else {
        all_records(logs.drop_last()) + scope_records(logs.last().scope_logs@)
    }
}

/// The spans of some scopes, in order.
pub open spec fn scope_spans<S>(scopes: Seq<ScopeSpans<S>>) -> Seq<S>
    decreases scopes.len(),
{
    if scopes.len() == 0 {
        Seq::empty()
    } else {
        scope_spans(scopes.drop_last()) + scopes.last().spans@
    }
}

/// The spans of some resources, in order: resource by resource, and scope by scope in each.
pub open spec fn all_spans<S>(resources: Seq<ResourceSpans<S>>) -> Seq<S>
    decreases resources.len(),
{
    if resources.len() == 0 {
        Seq::empty()
    } else {
        all_spans(resources.drop_last()) + scope_spans(resources.last().scope_spans@)
    }
}

/// Gathers the log records of some resources, in order.
pub fn gather_records<'a, R>(logs: &'a [ResourceLogs<R>]) -> (r: Vec<&'a R>)
    ensures
        r@.unref() == all_records(logs@),
{
    let mut out: Vec<&'a R> = Vec::new();
    let mut i: usize = 0;
    assert(out@.unref() =~= all_records(logs@.take(0)));
    while i < logs.len()
        invariant
            i <= logs.len(),
            out@.unref() == all_records(logs@.take(i as int)),
        decreases logs.len() - i,
    {
        let scopes = &logs[i].scope_logs;
        let ghost done = all_records(logs@.take(i as int));
        let mut j: usize = 0;
        assert(out@.unref() =~= done + scope_records(scopes@.take(0)));
        while j < scopes.len()
            invariant
                j <= scopes.len(),
                out@.unref() == done + scope_records(scopes@.take(j as int)),
            decreases scopes.len() - j,
        {
            let records = &scopes[j].log_records;
            let ghost before = done + scope_records(scopes@.take(j as int));
            let mut k: usize = 0;
            assert(out@.unref() =~= before + records@.take(0));
            while k < records.len()
                invariant
                    k <= records.len(),
                    out@.unref() == before + records@.take(k as int),
                decreases records.len() - k,
            {
                let ghost sofar = out@.unref();
                out.push(&records[k]);
                k += 1;
                assert(out@.unref() =~= sofar.push(records@[k - 1]));
                assert(records@.take(k as int) =~= records@.take(k - 1).push(records@[k - 1]));
            }
            assert(records@.take(k as int) =~= records@);
            j += 1;
            assert(scopes@.take(j as int).drop_last() =~= scopes@.take(j - 1));
            assert(out@.unref() =~= done + scope_records(scopes@.take(j as int)));
        }
        assert(scopes@.take(j as int) =~= scopes@);
        i += 1;
        assert(logs@.take(i as int).drop_last() =~= logs@.take(i - 1));
    }
    assert(logs@.take(i as int) =~= logs@);
    out
}

/// Gathers the spans of some resources, in order.
pub fn gather_spans<'a, S>(resources: &'a [ResourceSpans<S>]) -> (r: Vec<&'a S>)
    ensures
        r@.unref() == all_spans(resources@),
{
    let mut out: Vec<&'a S> = Vec::new();
    let mut i: usize = 0;
    assert(out@.unref() =~= all_spans(resources@.take(0)));
    while i < resources.len()
        invariant
            i <= resources.len(),
            out@.unref() == all_spans(resources@.take(i as int)),
        decreases resources.len() - i,
    {
        let scopes = &resources[i].scope_spans;
        let ghost done = all_spans(resources@.take(i as int));
        let mut j: usize = 0;
        assert(out@.unref() =~= done + scope_spans(scopes@.take(0)));
        while j < scopes.len()
            invariant
                j <= scopes.len(),
                out@.unref() == done + scope_spans(scopes@.take(j as int)),
            decreases scopes.len() - j,
        {
            let spans = &scopes[j].spans;
            let ghost before = done + scope_spans(scopes@.take(j as int));
            let mut k: usize = 0;
            assert(out@.unref() =~= before + spans@.take(0));
            while k < spans.len()
                invariant
                    k <= spans.len(),
                    out@.unref() == before + spans@.take(k as int),
                decreases spans.len() - k,
            {
                let ghost sofar = out@.unref();
                out.push(&spans[k]);
                k += 1;
                assert(out@.unref() =~= sofar.push(spans@[k - 1]));
                assert(spans@.take(k as int) =~= spans@.take(k - 1).push(spans@[k - 1]));
            }
            assert(spans@.take(k as int) =~= spans@);
            j += 1;
            assert(scopes@.take(j as int).drop_last() =~= scopes@.take(j - 1));
            assert(out@.unref() =~= done + scope_spans(scopes@.take(j as int)));
        }
        assert(scopes@.take(j as int) =~= scopes@);
        i += 1;
        assert(resources@.take(i as int).drop_last() =~= resources@.take(i - 1));
    }
    assert(resources@.take(i as int) =~= resources@);
    out
}

/// How many log records the first `n` of some scopes hold: the sum of their numbers.
pub open spec fn records_in_scopes<R>(scopes: Seq<ScopeLogs<R>>, n: int) -> int
    decreases n,
{
    if n <= 0 {
        0
    } else {
        records_in_scopes(scopes, n - 1) + scopes[n - 1].log_records@.len()
    }
}

/// How many log records the first `n` of some resources hold, over all their scopes.
pub open spec fn records_in_resources<R>(resources: Seq<ResourceLogs<R>>, n: int) -> int
    decreases n,
{
    if n <= 0 {
        0
    } else {
        records_in_resources(resources, n - 1) + records_in_scopes(
            resources[n - 1].scope_logs@,
            resources[n - 1].scope_logs@.len() as int,
        )
    }
}

proof fn lemma_records_in_the_same_scopes<R>(
    scopes: Seq<ScopeLogs<R>>,
    other: Seq<ScopeLogs<R>>,
    n: int,
)
    requires
        n <= scopes.len(),
        n <= other.len(),
        forall|j: int| 0 <= j < n ==> #[trigger] scopes[j] == other[j],
    ensures
        records_in_scopes(scopes, n) == records_in_scopes(other, n),
    decreases n,
{
    if n > 0 {
        lemma_records_in_the_same_scopes(scopes, other, n - 1);
        assert(scopes[n - 1] == other[n - 1]);
    }
}

proof fn lemma_records_in_the_same_resources<R>(
    resources: Seq<ResourceLogs<R>>,
    other: Seq<ResourceLogs<R>>,
    n: int,
)
    requires
        n <= resources.len(),
        n <= other.len(),
        forall|i: int| 0 <= i < n ==> #[trigger] resources[i] == other[i],
    ensures
        records_in_resources(resources, n) == records_in_resources(other, n),
    decreases n,
{
    if n > 0 {
        lemma_records_in_the_same_resources(resources, other, n - 1);
        assert(resources[n - 1] == other[n - 1]);
    }
}

proof fn lemma_number_in_scopes<R>(scopes: Seq<ScopeLogs<R>>)
    ensures
        scope_records(scopes).len() == records_in_scopes(scopes, scopes.len() as int),
    decreases scopes.len(),
{
    if scopes.len() > 0 {
        let before = scopes.drop_last();
        lemma_number_in_scopes(before);
        lemma_records_in_the_same_scopes(before, scopes, scopes.len() - 1);
    }
}

proof fn lemma_places_in_scopes<R>(scopes: Seq<ScopeLogs<R>>, j: int, k: int)
    requires
        0 <= j < scopes.len(),
        0 <= k < scopes[j].log_records@.len(),
    ensures
        0 <= records_in_scopes(scopes, j) + k < scope_records(scopes).len(),
        scope_records(scopes)[records_in_scopes(scopes, j) + k] == scopes[j].log_records@[k],
    decreases scopes.len(),
{
    let before = scopes.drop_last();
    lemma_records_in_the_same_scopes(before, scopes, j);
    lemma_number_in_scopes(before);
    if j < scopes.len() - 1 {
        lemma_places_in_scopes(before, j, k);
    }
}

proof fn lemma_number_in_resources<R>(resources: Seq<ResourceLogs<R>>)
    ensures
        all_records(resources).len() == records_in_resources(resources, resources.len() as int),
    decreases resources.len(),
{
    if resources.len() > 0 {
        let before = resources.drop_last();
        lemma_number_in_resources(before);
        lemma_records_in_the_same_resources(before, resources, resources.len() - 1);
        lemma_number_in_scopes(resources.last().scope_logs@);
    }
}

proof fn lemma_places_in_resources<R>(resources: Seq<ResourceLogs<R>>, i: int, j: int, k: int)
    requires
        0 <= i < resources.len(),
        0 <= j < resources[i].scope_logs@.len(),
        0 <= k < resources[i].scope_logs@[j].log_records@.len(),
    ensures
        ({
            let place = records_in_resources(resources, i) + records_in_scopes(
                resources[i].scope_logs@,
                j,
            ) + k;
            &&& 0 <= place < all_records(resources).len()
            &&& all_records(resources)[place] == resources[i].scope_logs@[j].log_records@[k]
        }),
    decreases resources.len(),
{
    let before = resources.drop_last();
    lemma_records_in_the_same_resources(before, resources, i);
    lemma_number_in_resources(before);
    if i < resources.len() - 1 {
        lemma_places_in_resources(before, i, j, k);
    } else {
        lemma_places_in_scopes(resources[i].scope_logs@, j, k);
    }
}

/// The record stands at its place among the gathered ones: behind as many as come before it.
pub open spec fn record_stands_at_its_place<R>(
    gathered: Seq<&R>,
    resources: Seq<ResourceLogs<R>>,
    i: int,
    j: int,
    k: int,
) -> bool {
    let place = records_in_resources(resources, i) + records_in_scopes(
        resources[i].scope_logs@,
        j,
    ) + k;
    &&& 0 <= place < gathered.len()
    &&& *gathered[place] == resources[i].scope_logs@[j].log_records@[k]
}

/// The gathered log records are those of all scopes of all resources, each once and in order: there
/// are as many as the scopes hold together, and each stands at its place.
pub open spec fn holds_every_record<R>(gathered: Seq<&R>, resources: Seq<ResourceLogs<R>>) -> bool {
    &&& gathered.len() == records_in_resources(resources, resources.len() as int)
    &&& forall|i: int, j: int, k: int|
        0 <= i < resources.len() && 0 <= j < resources[i].scope_logs@.len() && 0 <= k
            < resources[i].scope_logs@[j].log_records@.len() ==> #[trigger]
            record_stands_at_its_place(
            gathered,
            resources,
            i,
            j,
            k,
        )
}

/// The log records of all resources, in order, hold every record at its place.
pub proof fn lemma_all_records_hold_every_record<R>(
    gathered: Seq<&R>,
    resources: Seq<ResourceLogs<R>>,
)
    requires
        gathered.unref() == all_records(resources),
    ensures
        holds_every_record(gathered, resources),
{
    lemma_number_in_resources(resources);
    assert(gathered.unref().len() == gathered.len());
    assert forall|i: int, j: int, k: int|
        0 <= i < resources.len() && 0 <= j < resources[i].scope_logs@.len() && 0 <= k
            < resources[i].scope_logs@[j].log_records@.len() implies #[trigger]
            record_stands_at_its_place(
        gathered,
        resources,
        i,
        j,
        k,
    ) by {
        lemma_places_in_resources(resources, i, j, k);
        let place = records_in_resources(resources, i) + records_in_scopes(
            resources[i].scope_logs@,
            j,
        ) + k;
        assert(gathered.unref()[place] == *gathered[place]);
    }
}

/// No record is lost, made up or moved: the gathered ones are as many as all scopes of all
/// resources hold, and each stands at the place that is the number of those before it.
pub proof fn law_no_record_is_lost_or_made_up<'a, R>(
    resources: &'a [ResourceLogs<R>],
    r: Vec<&'a R>,
)
    requires
        call_ensures(gather_records::<R>, (resources,), r),
    ensures
        r@.len() == records_in_resources(resources@, resources@.len() as int),
        forall|i: int, j: int, k: int|
            0 <= i < resources@.len() && 0 <= j < resources@[i].scope_logs@.len() && 0 <= k
                < resources@[i].scope_logs@[j].log_records@.len() ==> #[trigger]
            record_stands_at_its_place(
                r@,
                resources@,
                i,
                j,
                k,
            ),
{
    lemma_all_records_hold_every_record(r@, resources@);
}

/// How many spans the first `n` of some scopes hold: the sum of their numbers.
pub open spec fn spans_in_scopes<R>(scopes: Seq<ScopeSpans<R>>, n: int) -> int
    decreases n,
{
    if n <= 0 {
        0
    } else {
        spans_in_scopes(scopes, n - 1) + scopes[n - 1].spans@.len()
    }
}

/// How many spans the first `n` of some resources hold, over all their scopes.
pub open spec fn spans_in_resources<R>(resources: Seq<ResourceSpans<R>>, n: int) -> int
    decreases n,
{
    if n <= 0 {
        0
    } else {
        spans_in_resources(resources, n - 1) + spans_in_scopes(
            resources[n - 1].scope_spans@,
            resources[n - 1].scope_spans@.len() as int,
        )
    }
}

proof fn lemma_spans_in_the_same_scopes<R>(
    scopes: Seq<ScopeSpans<R>>,
    other: Seq<ScopeSpans<R>>,
    n: int,
)
    requires
        n <= scopes.len(),
        n <= other.len(),
        forall|j: int| 0 <= j < n ==> #[trigger] scopes[j] == other[j],
    ensures
        spans_in_scopes(scopes, n) == spans_in_scopes(other, n),
    decreases n,
{
    if n > 0 {
        lemma_spans_in_the_same_scopes(scopes, other, n - 1);
        assert(scopes[n - 1] == other[n - 1]);
    }
}

proof fn lemma_spans_in_the_same_resources<R>(
    resources: Seq<ResourceSpans<R>>,
    other: Seq<ResourceSpans<R>>,
    n: int,
)
    requires
        n <= resources.len(),
        n <= other.len(),
        forall|i: int| 0 <= i < n ==> #[trigger] resources[i] == other[i],
    ensures
        spans_in_resources(resources, n) == spans_in_resources(other, n),
    decreases n,
{
    if n > 0 {
        lemma_spans_in_the_same_resources(resources, other, n - 1);
        assert(resources[n - 1] == other[n - 1]);
    }
}

proof fn lemma_number_of_spans_in_scopes<R>(scopes: Seq<ScopeSpans<R>>)
    ensures
        scope_spans(scopes).len() == spans_in_scopes(scopes, scopes.len() as int),
    decreases scopes.len(),
{
    if scopes.len() > 0 {
        let before = scopes.drop_last();
        lemma_number_of_spans_in_scopes(before);
        lemma_spans_in_the_same_scopes(before, scopes, scopes.len() - 1);
    }
}

proof fn lemma_span_places_in_scopes<R>(scopes: Seq<ScopeSpans<R>>, j: int, k: int)
    requires
        0 <= j < scopes.len(),
        0 <= k < scopes[j].spans@.len(),
    ensures
        0 <= spans_in_scopes(scopes, j) + k < scope_spans(scopes).len(),
        scope_spans(scopes)[spans_in_scopes(scopes, j) + k] == scopes[j].spans@[k],
    decreases scopes.len(),
{
    let before = scopes.drop_last();
    lemma_spans_in_the_same_scopes(before, scopes, j);
    lemma_number_of_spans_in_scopes(before);
    if j < scopes.len() - 1 {
        lemma_span_places_in_scopes(before, j, k);
    }
}

proof fn lemma_number_of_spans_in_resources<R>(resources: Seq<ResourceSpans<R>>)
    ensures
        all_spans(resources).len() == spans_in_resources(resources, resources.len() as int),
    decreases resources.len(),
{
    if resources.len() > 0 {
        let before = resources.drop_last();
        lemma_number_of_spans_in_resources(before);
        lemma_spans_in_the_same_resources(before, resources, resources.len() - 1);
        lemma_number_of_spans_in_scopes(resources.last().scope_spans@);
    }
}

proof fn lemma_span_places_in_resources<R>(resources: Seq<ResourceSpans<R>>, i: int, j: int, k: int)
    requires
        0 <= i < resources.len(),
        0 <= j < resources[i].scope_spans@.len(),
        0 <= k < resources[i].scope_spans@[j].spans@.len(),
    ensures
        ({
            let place = spans_in_resources(resources, i) + spans_in_scopes(
                resources[i].scope_spans@,
                j,
            ) + k;
            &&& 0 <= place < all_spans(resources).len()
            &&& all_spans(resources)[place] == resources[i].scope_spans@[j].spans@[k]
        }),
    decreases resources.len(),
{
    let before = resources.drop_last();
    lemma_spans_in_the_same_resources(before, resources, i);
    lemma_number_of_spans_in_resources(before);
    if i < resources.len() - 1 {
        lemma_span_places_in_resources(before, i, j, k);
    } else {
        lemma_span_places_in_scopes(resources[i].scope_spans@, j, k);
    }
}

/// The span stands at its place among the gathered ones: behind as many as come before it.
pub open spec fn span_stands_at_its_place<R>(
    gathered: Seq<&R>,
    resources: Seq<ResourceSpans<R>>,
    i: int,
    j: int,
    k: int,
) -> bool {
    let place = spans_in_resources(resources, i) + spans_in_scopes(
        resources[i].scope_spans@,
        j,
    ) + k;
    &&& 0 <= place < gathered.len()
    &&& *gathered[place] == resources[i].scope_spans@[j].spans@[k]
}

/// The gathered spans are those of all scopes of all resources, each once and in order: there are
/// as many as the scopes hold together, and each stands at its place.
pub open spec fn holds_every_span<R>(gathered: Seq<&R>, resources: Seq<ResourceSpans<R>>) -> bool {
    &&& gathered.len() == spans_in_resources(resources, resources.len() as int)
    &&& forall|i: int, j: int, k: int|
        0 <= i < resources.len() && 0 <= j < resources[i].scope_spans@.len() && 0 <= k
            < resources[i].scope_spans@[j].spans@.len() ==> #[trigger]
            span_stands_at_its_place(
            gathered,
            resources,
            i,
            j,
            k,
        )
}

/// The spans of all resources, in order, hold every span at its place.
pub proof fn lemma_all_spans_hold_every_span<R>(gathered: Seq<&R>, resources: Seq<ResourceSpans<R>>)
    requires
        gathered.unref() == all_spans(resources),
    ensures
        holds_every_span(gathered, resources),
{
    lemma_number_of_spans_in_resources(resources);
    assert(gathered.unref().len() == gathered.len());
    assert forall|i: int, j: int, k: int|
        0 <= i < resources.len() && 0 <= j < resources[i].scope_spans@.len() && 0 <= k
            < resources[i].scope_spans@[j].spans@.len() implies #[trigger]
            span_stands_at_its_place(
        gathered,
        resources,
        i,
        j,
        k,
    ) by {
        lemma_span_places_in_resources(resources, i, j, k);
        let place = spans_in_resources(resources, i) + spans_in_scopes(
            resources[i].scope_spans@,
            j,
        ) + k;
        assert(gathered.unref()[place] == *gathered[place]);
    }
}

/// No span is lost, made up or moved: the gathered ones are as many as all scopes of all resources
/// hold, and each stands at the place that is the number of those before it.
pub proof fn law_no_span_is_lost_or_made_up<'a, R>(
    resources: &'a [ResourceSpans<R>],
    r: Vec<&'a R>,
)
    requires
        call_ensures(gather_spans::<R>, (resources,), r),
    ensures
        r@.len() == spans_in_resources(resources@, resources@.len() as int),
        forall|i: int, j: int, k: int|
            0 <= i < resources@.len() && 0 <= j < resources@[i].scope_spans@.len() && 0 <= k
                < resources@[i].scope_spans@[j].spans@.len() ==> #[trigger]
            span_stands_at_its_place(
                r@,
                resources@,
                i,
                j,
                k,
            ),
{
    lemma_all_spans_hold_every_span(r@, resources@);
}

} // verus!
