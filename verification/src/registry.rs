//! The registry: an ordered collection of named series families.
//!
//! A family couples one immutable [`Descriptor`] (name, help text, value
//! kind, label schema) with the current values of its series instances,
//! one per label-value row.  Families are registered once, at producer
//! setup time; sampling only changes series values, never the descriptor
//! set.  Two invariants are maintained: no two families share a name, and
//! no two series of one family share a label row.
//!
//! Sampling communicates with the registry through [`SeriesWrite`]
//! values.  A write either sets a gauge outright or raises a counter
//! toward a raw reading ([`WriteOp::CounterTo`]); the latter never moves
//! the published value backward, which implements the clamp-to-zero
//! counter-reset policy of [`crate::delta`].

use vstd::prelude::*;

verus! {

/// Whether a family's published value is a monotonically non-decreasing
/// counter or a freely moving gauge.
#[derive(Clone, Copy, PartialEq, Eq, Structural, Debug)]
pub enum MetricKind {
    Counter,
    Gauge,
}

/// An exact published number: the rational `num / den`.
///
/// Integer-valued series use denominator 1.  Ratio-valued series (usage
/// percentages) carry the exact integer numerator and denominator from
/// which a renderer derives a float; the engine itself never computes
/// with floats.
#[derive(Clone, Copy, PartialEq, Eq, Structural, Debug)]
pub struct MetricValue {
    pub num: u64,
    pub den: u64,
}

impl MetricValue {
    /// A value is well formed when its denominator is positive.
    pub open spec fn wf(self) -> bool {
        self.den >= 1
    }
}

/// The exact ratio `num / den`, with a zero denominator yielding 0/1
/// instead of a division fault.
pub open spec fn ratio_or_zero(num: u64, den: u64) -> MetricValue {
    if den == 0 {
        MetricValue { num: 0, den: 1 }
    } else {
        MetricValue { num, den }
    }
}

/// The immutable description of one series family.
pub struct Descriptor {
    pub name: &'static str,
    pub help: &'static str,
    pub kind: MetricKind,
    pub label_names: Vec<&'static str>,
}

/// Mathematical image of a [`Descriptor`].
#[verifier::ext_equal]
pub struct DescriptorV {
    pub name: Seq<char>,
    pub help: Seq<char>,
    pub kind: MetricKind,
    pub label_names: Seq<Seq<char>>,
}

impl DeepView for Descriptor {
    type V = DescriptorV;

    open spec fn deep_view(&self) -> DescriptorV {
        self@
    }
}

impl View for Descriptor {
    type V = DescriptorV;

    open spec fn view(&self) -> DescriptorV {
        DescriptorV {
            name: self.name@,
            help: self.help@,
            kind: self.kind,
            label_names: self.label_names@.map_values(|s: &'static str| s@),
        }
    }
}

/// One series instance: a label-value row and its current value.
pub struct Series {
    pub labels: Vec<String>,
    pub value: MetricValue,
}

/// Mathematical image of a [`Series`].
#[verifier::ext_equal]
pub struct SeriesV {
    pub labels: Seq<Seq<char>>,
    pub value: MetricValue,
}

impl View for Series {
    type V = SeriesV;

    open spec fn view(&self) -> SeriesV {
        SeriesV { labels: self.labels.deep_view(), value: self.value }
    }
}

impl DeepView for Series {
    type V = SeriesV;

    open spec fn deep_view(&self) -> SeriesV {
        self@
    }
}

/// A descriptor together with the series instances created under it.
pub struct Family {
    pub desc: Descriptor,
    pub series: Vec<Series>,
}

/// Mathematical image of a [`Family`].
#[verifier::ext_equal]
pub struct FamilyV {
    pub desc: DescriptorV,
    pub series: Seq<SeriesV>,
}

impl View for Family {
    type V = FamilyV;

    open spec fn view(&self) -> FamilyV {
        FamilyV { desc: self.desc@, series: self.series.deep_view() }
    }
}

impl DeepView for Family {
    type V = FamilyV;

    open spec fn deep_view(&self) -> FamilyV {
        self@
    }
}

/// How one write changes a series value.
#[derive(Clone, Copy, PartialEq, Eq, Structural, Debug)]
pub enum WriteOp {
    /// Replace the value (gauges).
    SetTo(MetricValue),
    /// Raise a counter toward the raw reading `n`: the new value is
    /// `max(old, n)`, so the published increment is `n - old` when the
    /// raw counter grew and 0 when it reset backwards.
    CounterTo(u64),
}

/// One pending change to the registry, produced by a sampling pass.
pub struct SeriesWrite {
    pub family: &'static str,
    pub labels: Vec<String>,
    pub op: WriteOp,
}

/// Mathematical image of a [`SeriesWrite`].
#[verifier::ext_equal]
pub struct WriteV {
    pub family: Seq<char>,
    pub labels: Seq<Seq<char>>,
    pub op: WriteOp,
}

impl View for SeriesWrite {
    type V = WriteV;

    open spec fn view(&self) -> WriteV {
        WriteV { family: self.family@, labels: self.labels.deep_view(), op: self.op }
    }
}

impl DeepView for SeriesWrite {
    type V = WriteV;

    open spec fn deep_view(&self) -> WriteV {
        self@
    }
}

/// A write is well formed when the value it carries is.
pub open spec fn write_wf(w: WriteV) -> bool {
    match w.op {
        WriteOp::SetTo(v) => v.wf(),
        WriteOp::CounterTo(_) => true,
    }
}

/// Error reported by registration.
#[derive(Clone, Copy, PartialEq, Eq, Structural, Debug)]
pub enum RegistryError {
    /// A family with the same name is already registered.
    DuplicateName,
}

/// The ordered collection of all series families.
pub struct Registry {
    families: Vec<Family>,
}

impl View for Registry {
    type V = Seq<FamilyV>;

    closed spec fn view(&self) -> Seq<FamilyV> {
        self.families.deep_view()
    }
}

/// Whether a family of this name is present.
pub open spec fn has_family(reg: Seq<FamilyV>, name: Seq<char>) -> bool {
    exists|i: int| 0 <= i < reg.len() && reg[i].desc.name == name
}

/// Index of the family of this name (meaningful only under
/// [`registry_wf`], which makes the index unique).
pub open spec fn family_idx(reg: Seq<FamilyV>, name: Seq<char>) -> int {
    choose|i: int| 0 <= i < reg.len() && reg[i].desc.name == name
}

/// Whether a series with this label row is present in the family.
pub open spec fn has_series(f: FamilyV, labels: Seq<Seq<char>>) -> bool {
    exists|i: int| 0 <= i < f.series.len() && f.series[i].labels == labels
}

/// Index of the series with this label row (unique under [`family_wf`]).
pub open spec fn series_idx(f: FamilyV, labels: Seq<Seq<char>>) -> int {
    choose|i: int| 0 <= i < f.series.len() && f.series[i].labels == labels
}

/// No two series of the family share a label row, and every value is
/// well formed.
pub open spec fn family_wf(f: FamilyV) -> bool {
    &&& forall|i: int, j: int|
        0 <= i < j < f.series.len() ==> (#[trigger] f.series[i].labels) != (
        #[trigger] f.series[j].labels)
    &&& forall|i: int| 0 <= i < f.series.len() ==> (#[trigger] f.series[i].value).wf()
}

/// No two families share a name, and every family is well formed.
pub open spec fn registry_wf(reg: Seq<FamilyV>) -> bool {
    &&& forall|i: int, j: int|
        0 <= i < j < reg.len() ==> (#[trigger] reg[i].desc.name) != (#[trigger] reg[j].desc.name)
    &&& forall|i: int| 0 <= i < reg.len() ==> family_wf(#[trigger] reg[i])
}

/// The value a write leaves in a series that already exists with value
/// `old_v`.  `CounterTo` never moves the value backward.
pub open spec fn op_apply(old_v: MetricValue, op: WriteOp) -> MetricValue {
    match op {
        WriteOp::SetTo(v) => v,
        WriteOp::CounterTo(n) => MetricValue {
            num: if old_v.den == 1 && old_v.num > n {
                old_v.num
            } else {
                n
            },
            den: 1,
        },
    }
}

/// The value a write creates for a series seen for the first time.
/// A fresh counter starts at 0, so its first increment is the raw
/// reading itself.
pub open spec fn op_insert(op: WriteOp) -> MetricValue {
    match op {
        WriteOp::SetTo(v) => v,
        WriteOp::CounterTo(n) => MetricValue { num: n, den: 1 },
    }
}

/// Effect of one write on one family: update the matching series, or
/// append a fresh one.
pub open spec fn family_upsert(f: FamilyV, labels: Seq<Seq<char>>, op: WriteOp) -> FamilyV {
    if has_series(f, labels) {
        let i = series_idx(f, labels);
        FamilyV {
            desc: f.desc,
            series: f.series.update(
                i,
                SeriesV { labels, value: op_apply(f.series[i].value, op) },
            ),
        }
    } else {
        FamilyV { desc: f.desc, series: f.series.push(SeriesV { labels, value: op_insert(op) }) }
    }
}

/// Effect of one write on the registry.  A write that names no
/// registered family changes nothing: values exist only under a
/// registered descriptor.
pub open spec fn apply_write_spec(reg: Seq<FamilyV>, w: WriteV) -> Seq<FamilyV> {
    if has_family(reg, w.family) {
        let i = family_idx(reg, w.family);
        reg.update(i, family_upsert(reg[i], w.labels, w.op))
    } else {
        reg
    }
}

/// Effect of a sequence of writes, applied left to right.
pub open spec fn apply_writes_spec(reg: Seq<FamilyV>, ws: Seq<WriteV>) -> Seq<FamilyV>
    decreases ws.len(),
{
    if ws.len() == 0 {
        reg
    } else {
        apply_writes_spec(apply_write_spec(reg, ws[0]), ws.skip(1))
    }
}

/// The descriptors of the registry, in registration order.
pub open spec fn desc_seq(reg: Seq<FamilyV>) -> Seq<DescriptorV> {
    reg.map_values(|f: FamilyV| f.desc)
}

/// The current value of the series `labels` under the family `name`.
pub open spec fn value_of(reg: Seq<FamilyV>, name: Seq<char>, labels: Seq<Seq<char>>) -> Option<
    MetricValue,
> {
    if has_family(reg, name) && has_series(reg[family_idx(reg, name)], labels) {
        let f = reg[family_idx(reg, name)];
        Some(f.series[series_idx(f, labels)].value)
    } else {
        None
    }
}

/// String equality by contents.
pub fn str_eq(a: &str, b: &str) -> (r: bool)
    ensures
        r == (a@ == b@),
{
    let sa: String = a.to_owned();
    let sb: String = b.to_owned();
    sa == sb
}

/// Label-row equality by contents.
pub fn labels_eq(a: &Vec<String>, b: &Vec<String>) -> (r: bool)
    ensures
        r == (a.deep_view() == b.deep_view()),
{
    if a.len() != b.len() {
        assert(a.deep_view().len() == a@.len());
        assert(b.deep_view().len() == b@.len());
        return false;
    }
    let n = a.len();
    let mut i: usize = 0;
    while i < n
        invariant
            n == a@.len() == b@.len(),
            0 <= i <= n,
            forall|k: int| 0 <= k < i ==> a.deep_view()[k] == b.deep_view()[k],
        decreases n - i,
    {
        if !str_eq(a[i].as_str(), b[i].as_str()) {
            assert(a.deep_view()[i as int] != b.deep_view()[i as int]);
            return false;
        }
        i += 1;
    }
    assert(a.deep_view() =~= b.deep_view());
    true
}

impl Registry {
    /// Shorthand for [`registry_wf`] of this registry's view.
    pub open spec fn wf(&self) -> bool {
        registry_wf(self@)
    }

    /// An empty registry.
    pub fn new() -> (r: Registry)
        ensures
            r@ == Seq::<FamilyV>::empty(),
            r.wf(),
    {
        let r = Registry { families: Vec::new() };
        assert(r@ =~= Seq::<FamilyV>::empty());
        r
    }

    /// Number of registered families.
    pub fn family_count(&self) -> (n: usize)
        ensures
            n == self@.len(),
    {
        self.families.len()
    }

    /// Index of the family named `name`, if registered.
    fn find_family(&self, name: &str) -> (r: Option<usize>)
        requires
            self.wf(),
        ensures
            match r {
                Some(i) => i < self@.len() && self@[i as int].desc.name == name@ && i
                    == family_idx(self@, name@) && has_family(self@, name@),
                None => !has_family(self@, name@),
            },
    {
        let n = self.families.len();
        let mut i: usize = 0;
        while i < n
            invariant
                self.wf(),
                n == self@.len(),
                0 <= i <= n,
                forall|k: int| 0 <= k < i ==> (#[trigger] self@[k].desc.name) != name@,
            decreases n - i,
        {
            if str_eq(self.families[i].desc.name, name) {
                proof {
                    let wit = i as int;
                    assert(0 <= wit < self@.len() && self@[wit].desc.name == name@);
                    let c = family_idx(self@, name@);
                    assert(0 <= c < self@.len() && self@[c].desc.name == name@);
                    if c != wit {
                        if c < wit {
                            assert(self@[c].desc.name != self@[wit].desc.name);
                        } else {
                            assert(self@[wit].desc.name != self@[c].desc.name);
                        }
                    }
                }
                return Some(i);
            }
            i += 1;
        }
        None
    }

    /// Register one family.  Registration is rejected, and the registry
    /// left unchanged, exactly when a family of the same name already
    /// exists — so registering the same descriptors a second time is
    /// harmless and the descriptor set stays stable.
    pub fn register(&mut self, desc: Descriptor) -> (r: Result<(), RegistryError>)
        requires
            old(self).wf(),
        ensures
            final(self).wf(),
            match r {
                Ok(()) => !has_family(old(self)@, desc@.name) && final(self)@ == old(self)@.push(
                    FamilyV { desc: desc@, series: Seq::empty() },
                ),
                Err(RegistryError::DuplicateName) => has_family(old(self)@, desc@.name)
                    && final(self)@ == old(self)@,
            },
    {
        let found = self.find_family(desc.name);
        match found {
            Some(_) => Err(RegistryError::DuplicateName),
            None => {
                let ghost before = self@;
                let ghost dv = desc@;
                self.families.push(Family { desc, series: Vec::new() });
                proof {
                    assert(self@ =~~= before.push(FamilyV { desc: dv, series: Seq::empty() }));
                    assert forall|i: int, j: int| 0 <= i < j < self@.len() implies (
                    #[trigger] self@[i].desc.name) != (#[trigger] self@[j].desc.name) by {
                        if j < self@.len() - 1 {
                        } else {
                            assert(self@[i].desc.name == before[i].desc.name);
                            assert(!has_family(before, dv.name));
                            assert(!(0 <= i < before.len() && before[i].desc.name == dv.name));
                        }
                    }
                    assert forall|i: int| 0 <= i < self@.len() implies family_wf(
                        #[trigger] self@[i],
                    ) by {
                        if i < self@.len() - 1 {
                            assert(family_wf(before[i]));
                        }
                    }
                }
                Ok(())
            },
        }
    }

    /// Index of the series with this label row within the family, if any.
    fn find_series(fam: &Family, labels: &Vec<String>) -> (r: Option<usize>)
        requires
            family_wf(fam@),
        ensures
            match r {
                Some(i) => i < fam@.series.len() && fam@.series[i as int].labels
                    == labels.deep_view() && i == series_idx(fam@, labels.deep_view())
                    && has_series(fam@, labels.deep_view()),
                None => !has_series(fam@, labels.deep_view()),
            },
    {
        let m = fam.series.len();
        let mut i: usize = 0;
        while i < m
            invariant
                family_wf(fam@),
                m == fam@.series.len(),
                0 <= i <= m,
                forall|k: int|
                    0 <= k < i ==> (#[trigger] fam@.series[k].labels) != labels.deep_view(),
            decreases m - i,
        {
            if labels_eq(&fam.series[i].labels, labels) {
                proof {
                    let wit = i as int;
                    assert(fam@.series[wit].labels == labels.deep_view());
                    let c = series_idx(fam@, labels.deep_view());
                    assert(0 <= c < fam@.series.len() && fam@.series[c].labels
                        == labels.deep_view());
                    if c != wit {
                        if c < wit {
                            assert(fam@.series[c].labels != fam@.series[wit].labels);
                        } else {
                            assert(fam@.series[wit].labels != fam@.series[c].labels);
                        }
                    }
                }
                return Some(i);
            }
            i += 1;
        }
        None
    }

    /// Apply one write: upsert the series under its family, or do
    /// nothing if the family is not registered.
    pub fn apply_write(&mut self, w: SeriesWrite)
        requires
            old(self).wf(),
            write_wf(w@),
        ensures
            final(self).wf(),
            final(self)@ == apply_write_spec(old(self)@, w@),
    {
        let found = self.find_family(w.family);
        match found {
            None => (),
            Some(fi) => {
                let ghost before = self@;
                let ghost wv = w@;
                let SeriesWrite { family: _, labels, op } = w;
                let ghost labels_v = labels.deep_view();
                proof {
                    assert(registry_wf(before));
                    assert(family_wf(before[fi as int]));
                    assert(self@[fi as int] == self.families@[fi as int]@);
                }
                let si_opt = Self::find_series(&self.families[fi], &labels);
                if let Some(si) = si_opt {
                    let old_v = self.families[fi].series[si].value;
                    let new_v = match op {
                        WriteOp::SetTo(v) => v,
                        WriteOp::CounterTo(n) => MetricValue {
                            num: if old_v.den == 1 && old_v.num > n {
                                old_v.num
                            } else {
                                n
                            },
                            den: 1,
                        },
                    };
                    let fam_mut = &mut self.families[fi];
                    let ser_mut = &mut fam_mut.series[si];
                    ser_mut.labels = labels;
                    ser_mut.value = new_v;
                    proof {
                        let f = before[fi as int];
                        assert(new_v == op_apply(f.series[si as int].value, op));
                        assert(self@[fi as int].series =~~= f.series.update(
                            si as int,
                            SeriesV { labels: labels_v, value: op_apply(f.series[si as int].value, op) },
                        ));
                        assert(self@[fi as int] =~~= family_upsert(f, labels_v, op));
                        assert(self@ =~~= apply_write_spec(before, wv));
                        lemma_upsert_wf(f, labels_v, op);
                        assert forall|i: int| 0 <= i < self@.len() implies family_wf(
                            #[trigger] self@[i],
                        ) by {
                            if i != fi as int {
                                assert(family_wf(before[i]));
                            }
                        }
                        assert forall|i: int, j: int| 0 <= i < j < self@.len() implies (
                        #[trigger] self@[i].desc.name) != (#[trigger] self@[j].desc.name) by {
                            assert(before[i].desc.name != before[j].desc.name);
                            assert(self@[i].desc.name == before[i].desc.name);
                            assert(self@[j].desc.name == before[j].desc.name);
                        }
                    }
                } else {
                    let new_v = match op {
                        WriteOp::SetTo(v) => v,
                        WriteOp::CounterTo(n) => MetricValue { num: n, den: 1 },
                    };
                    let fam_mut = &mut self.families[fi];
                    fam_mut.series.push(Series { labels, value: new_v });
                    proof {
                        let f = before[fi as int];
                        assert(!has_series(f, labels_v));
                        assert(new_v == op_insert(op));
                        assert(self@[fi as int].series =~~= f.series.push(
                            SeriesV { labels: labels_v, value: op_insert(op) },
                        ));
                        assert(self@[fi as int] =~~= family_upsert(f, labels_v, op));
                        assert(self@ =~~= apply_write_spec(before, wv));
                        lemma_upsert_wf(f, labels_v, op);
                        assert forall|i: int| 0 <= i < self@.len() implies family_wf(
                            #[trigger] self@[i],
                        ) by {
                            if i != fi as int {
                                assert(family_wf(before[i]));
                            }
                        }
                        assert forall|i: int, j: int| 0 <= i < j < self@.len() implies (
                        #[trigger] self@[i].desc.name) != (#[trigger] self@[j].desc.name) by {
                            assert(before[i].desc.name != before[j].desc.name);
                            assert(self@[i].desc.name == before[i].desc.name);
                            assert(self@[j].desc.name == before[j].desc.name);
                        }
                    }
                }
            },
        }
    }

    /// The family at position `i`, for render-time enumeration.
    pub fn family_at(&self, i: usize) -> (r: &Family)
        requires
            i < self@.len(),
        ensures
            r@ == self@[i as int],
    {
        &self.families[i]
    }

    /// Whether a family of this name is registered.
    pub fn has_family_named(&self, name: &str) -> (r: bool)
        requires
            self.wf(),
        ensures
            r == has_family(self@, name@),
    {
        match self.find_family(name) {
            Some(_) => true,
            None => false,
        }
    }

    /// The current value of the series `labels` under the family
    /// `name`, if both exist.
    pub fn get_value(&self, name: &str, labels: &Vec<String>) -> (r: Option<MetricValue>)
        requires
            self.wf(),
        ensures
            r == value_of(self@, name@, labels.deep_view()),
    {
        let found = self.find_family(name);
        match found {
            None => None,
            Some(fi) => {
                let si_opt = Self::find_series(&self.families[fi], labels);
                match si_opt {
                    None => None,
                    Some(si) => Some(self.families[fi].series[si].value),
                }
            },
        }
    }

    /// Register a batch of descriptors, left to right, skipping every
    /// name that is already present.
    pub fn register_many(&mut self, ds: Vec<Descriptor>)
        requires
            old(self).wf(),
        ensures
            final(self).wf(),
            final(self)@ == register_all_spec(old(self)@, ds.deep_view()),
    {
        let ghost reg0 = self@;
        let ghost dsv = ds.deep_view();
        let mut rest = ds;
        let n = rest.len();
        let mut idx: usize = 0;
        while idx < n
            invariant
                0 <= idx <= n,
                n == dsv.len(),
                rest@.len() == n - idx,
                forall|k: int| 0 <= k < rest@.len() ==> (#[trigger] rest@[k])@ == dsv[k + idx],
                self.wf(),
                self@ == register_all_spec(reg0, dsv.take(idx as int)),
            decreases n - idx,
        {
            let ghost prev_rest = rest@;
            let d = rest.remove(0);
            proof {
                assert(d@ == dsv[idx as int]);
                lemma_register_all_snoc(reg0, dsv, idx as int);
                assert forall|k: int|
                    0 <= k < rest@.len() implies (#[trigger] rest@[k])@ == dsv[k + idx + 1] by {
                    assert(rest@[k] == prev_rest[k + 1]);
                }
            }
            let ghost before = self@;
            let res = self.register(d);
            proof {
                assert(self@ == register_one_spec(before, dsv[idx as int]));
            }
            idx += 1;
        }
        proof {
            assert(dsv.take(n as int) =~= dsv);
        }
    }

    /// Apply a batch of writes, left to right.
    pub fn apply_writes(&mut self, ws: Vec<SeriesWrite>)
        requires
            old(self).wf(),
            forall|k: int| 0 <= k < ws.deep_view().len() ==> write_wf(#[trigger] ws.deep_view()[k]),
        ensures
            final(self).wf(),
            final(self)@ == apply_writes_spec(old(self)@, ws.deep_view()),
    {
        let ghost reg0 = self@;
        let ghost wsv = ws.deep_view();
        let mut rest = ws;
        let n = rest.len();
        let mut i: usize = 0;
        // consume from the front to keep ownership simple
        proof {
            assert(wsv.len() == n);
        }
        let mut writes = rest;
        let mut idx: usize = 0;
        while idx < n
            invariant
                0 <= idx <= n,
                writes@.len() == n,
                n == wsv.len(),
                forall|k: int| 0 <= k < wsv.len() ==> write_wf(#[trigger] wsv[k]),
                forall|k: int| idx <= k < n ==> (#[trigger] writes@[k])@ == wsv[k],
                self.wf(),
                self@ == apply_writes_spec(reg0, wsv.take(idx as int)),
            decreases n - idx,
        {
            let w = write_clone(&writes[idx]);
            proof {
                assert(w@ == wsv[idx as int]);
                lemma_apply_writes_snoc(reg0, wsv, idx as int);
            }
            self.apply_write(w);
            idx += 1;
        }
        proof {
            assert(wsv.take(n as int) =~= wsv);
        }
    }
}

/// Clone one write (label strings are copied).
fn write_clone(w: &SeriesWrite) -> (r: SeriesWrite)
    ensures
        r@ == w@,
{
    let labels = w.labels.clone();
    proof {
        assert forall|i: int| 0 <= i < w.labels@.len() implies labels@[i] == w.labels@[i] by {
            assert(cloned::<String>(w.labels@[i], labels@[i]));
        }
        assert(labels@ =~= w.labels@);
    }
    SeriesWrite { family: w.family, labels, op: w.op }
}

/// An upsert keeps a family well formed.
proof fn lemma_upsert_wf(f: FamilyV, labels: Seq<Seq<char>>, op: WriteOp)
    requires
        family_wf(f),
        (match op {
            WriteOp::SetTo(v) => v.wf(),
            WriteOp::CounterTo(_) => true,
        }),
    ensures
        family_wf(family_upsert(f, labels, op)),
        family_upsert(f, labels, op).desc == f.desc,
{
    let g = family_upsert(f, labels, op);
    if has_series(f, labels) {
        let i = series_idx(f, labels);
        assert(0 <= i < f.series.len() && f.series[i].labels == labels);
        assert forall|a: int, b: int| 0 <= a < b < g.series.len() implies (
        #[trigger] g.series[a].labels) != (#[trigger] g.series[b].labels) by {
            assert(f.series[a].labels != f.series[b].labels);
        }
        assert forall|a: int| 0 <= a < g.series.len() implies (#[trigger] g.series[a].value).wf() by {
            if a != i {
                assert(f.series[a].value.wf());
            }
        }
    } else {
        assert forall|a: int, b: int| 0 <= a < b < g.series.len() implies (
        #[trigger] g.series[a].labels) != (#[trigger] g.series[b].labels) by {
            if b < g.series.len() - 1 {
                assert(f.series[a].labels != f.series[b].labels);
            } else {
                assert(!(0 <= a < f.series.len() && f.series[a].labels == labels));
            }
        }
        assert forall|a: int| 0 <= a < g.series.len() implies (#[trigger] g.series[a].value).wf() by {
            if a < g.series.len() - 1 {
                assert(f.series[a].value.wf());
            }
        }
    }
}

/// Unrolling [`apply_writes_spec`] from the right: applying the first
/// `i + 1` writes equals applying the first `i` and then write `i`.
pub proof fn lemma_apply_writes_snoc(reg: Seq<FamilyV>, ws: Seq<WriteV>, i: int)
    requires
        0 <= i < ws.len(),
    ensures
        apply_writes_spec(reg, ws.take(i + 1)) == apply_write_spec(
            apply_writes_spec(reg, ws.take(i)),
            ws[i],
        ),
    decreases i,
{
    let t1 = ws.take(i + 1);
    assert(t1.len() == i + 1);
    assert(t1[0] == ws[0]);
    assert(apply_writes_spec(reg, t1) == apply_writes_spec(
        apply_write_spec(reg, t1[0]),
        t1.skip(1),
    ));
    if i == 0 {
        assert(t1.skip(1) =~= Seq::<WriteV>::empty());
        assert(apply_writes_spec(apply_write_spec(reg, ws[0]), t1.skip(1)) == apply_write_spec(
            reg,
            ws[0],
        ));
        assert(ws.take(0) =~= Seq::<WriteV>::empty());
        assert(apply_writes_spec(reg, ws.take(0)) == reg);
    } else {
        let hd = ws[0];
        let tl = ws.skip(1);
        let reg1 = apply_write_spec(reg, hd);
        assert(t1.skip(1) =~= tl.take(i));
        lemma_apply_writes_snoc(reg1, tl, i - 1);
        let t0 = ws.take(i);
        assert(t0.len() == i);
        assert(t0[0] == hd);
        assert(apply_writes_spec(reg, t0) == apply_writes_spec(
            apply_write_spec(reg, t0[0]),
            t0.skip(1),
        ));
        assert(t0.skip(1) =~= tl.take(i - 1));
        assert(tl[i - 1] == ws[i]);
    }
}

/// Effect of registering one descriptor: the family is appended when
/// its name is new and skipped when it is already present.
pub open spec fn register_one_spec(reg: Seq<FamilyV>, d: DescriptorV) -> Seq<FamilyV> {
    if has_family(reg, d.name) {
        reg
    } else {
        reg.push(FamilyV { desc: d, series: Seq::empty() })
    }
}

/// Effect of registering a sequence of descriptors, left to right.
pub open spec fn register_all_spec(reg: Seq<FamilyV>, ds: Seq<DescriptorV>) -> Seq<FamilyV>
    decreases ds.len(),
{
    if ds.len() == 0 {
        reg
    } else {
        register_all_spec(register_one_spec(reg, ds[0]), ds.skip(1))
    }
}

/// Unrolling [`register_all_spec`] from the right.
pub proof fn lemma_register_all_snoc(reg: Seq<FamilyV>, ds: Seq<DescriptorV>, i: int)
    requires
        0 <= i < ds.len(),
    ensures
        register_all_spec(reg, ds.take(i + 1)) == register_one_spec(
            register_all_spec(reg, ds.take(i)),
            ds[i],
        ),
    decreases i,
{
    let t1 = ds.take(i + 1);
    assert(t1.len() == i + 1);
    assert(t1[0] == ds[0]);
    assert(register_all_spec(reg, t1) == register_all_spec(
        register_one_spec(reg, t1[0]),
        t1.skip(1),
    ));
    if i == 0 {
        assert(t1.skip(1) =~= Seq::<DescriptorV>::empty());
        assert(register_all_spec(register_one_spec(reg, ds[0]), t1.skip(1))
            == register_one_spec(reg, ds[0]));
        assert(ds.take(0) =~= Seq::<DescriptorV>::empty());
        assert(register_all_spec(reg, ds.take(0)) == reg);
    } else {
        let hd = ds[0];
        let tl = ds.skip(1);
        let reg1 = register_one_spec(reg, hd);
        assert(t1.skip(1) =~= tl.take(i));
        lemma_register_all_snoc(reg1, tl, i - 1);
        let t0 = ds.take(i);
        assert(t0.len() == i);
        assert(t0[0] == hd);
        assert(register_all_spec(reg, t0) == register_all_spec(
            register_one_spec(reg, t0[0]),
            t0.skip(1),
        ));
        assert(t0.skip(1) =~= tl.take(i - 1));
        assert(tl[i - 1] == ds[i]);
    }
}

/// A family name present before registration is still present after.
pub proof fn lemma_register_all_monotone(reg: Seq<FamilyV>, ds: Seq<DescriptorV>, name: Seq<char>)
    requires
        has_family(reg, name),
    ensures
        has_family(register_all_spec(reg, ds), name),
    decreases ds.len(),
{
    if ds.len() > 0 {
        let reg1 = register_one_spec(reg, ds[0]);
        if !has_family(reg, ds[0].name) {
            let i = choose|i: int| 0 <= i < reg.len() && reg[i].desc.name == name;
            assert(reg1[i].desc.name == name);
        }
        lemma_register_all_monotone(reg1, ds.skip(1), name);
    }
}

/// After registering `ds`, every name in `ds` has a family.
pub proof fn lemma_register_all_covers(reg: Seq<FamilyV>, ds: Seq<DescriptorV>)
    ensures
        forall|k: int|
            0 <= k < ds.len() ==> has_family(register_all_spec(reg, ds), (#[trigger] ds[k]).name),
    decreases ds.len(),
{
    if ds.len() > 0 {
        let reg1 = register_one_spec(reg, ds[0]);
        assert(has_family(reg1, ds[0].name)) by {
            if !has_family(reg, ds[0].name) {
                assert(reg1[reg.len() as int].desc.name == ds[0].name);
            }
        }
        lemma_register_all_monotone(reg1, ds.skip(1), ds[0].name);
        lemma_register_all_covers(reg1, ds.skip(1));
        assert forall|k: int|
            0 <= k < ds.len() implies has_family(
            register_all_spec(reg, ds),
            (#[trigger] ds[k]).name,
        ) by {
            if k > 0 {
                assert(ds.skip(1)[k - 1] == ds[k]);
            }
        }
    }
}

/// Registering descriptors whose names are all present already changes
/// nothing.
pub proof fn lemma_register_all_noop(reg: Seq<FamilyV>, ds: Seq<DescriptorV>)
    requires
        forall|k: int| 0 <= k < ds.len() ==> has_family(reg, (#[trigger] ds[k]).name),
    ensures
        register_all_spec(reg, ds) == reg,
    decreases ds.len(),
{
    if ds.len() > 0 {
        assert(has_family(reg, ds[0].name));
        assert(register_one_spec(reg, ds[0]) == reg);
        assert(forall|k: int|
            0 <= k < ds.skip(1).len() ==> has_family(reg, (#[trigger] ds.skip(1)[k]).name));
        lemma_register_all_noop(reg, ds.skip(1));
    }
}

/// Registering the same descriptors a second time changes nothing:
/// the registry's descriptor set is stable under repeated
/// registration.
pub proof fn lemma_register_all_idempotent(reg: Seq<FamilyV>, ds: Seq<DescriptorV>)
    ensures
        register_all_spec(register_all_spec(reg, ds), ds) == register_all_spec(reg, ds),
{
    lemma_register_all_covers(reg, ds);
    lemma_register_all_noop(register_all_spec(reg, ds), ds);
}

/// One write never changes the descriptor sequence.
pub proof fn lemma_write_preserves_descs(reg: Seq<FamilyV>, w: WriteV)
    ensures
        desc_seq(apply_write_spec(reg, w)) == desc_seq(reg),
{
    if has_family(reg, w.family) {
        let i = family_idx(reg, w.family);
        assert(desc_seq(apply_write_spec(reg, w)) =~= desc_seq(reg));
    }
}

/// A published counter never moves backward, and the increment it
/// publishes for a raw reading is exactly the clamped delta: positive
/// raw growth is published in full, a raw value below the published
/// one (a counter reset) publishes an increment of zero.
pub proof fn lemma_counter_never_backward(v: MetricValue, n: u64)
    requires
        v.den == 1,
    ensures
        op_apply(v, WriteOp::CounterTo(n)).num >= v.num,
        op_apply(v, WriteOp::CounterTo(n)).den == 1,
        op_apply(v, WriteOp::CounterTo(n)).num - v.num == crate::delta::counter_delta_spec(
            n,
            v.num,
        ),
{
}

/// A sampling pass — any sequence of writes — never changes the
/// descriptor sequence: the registry's descriptor set is stable once
/// registration is done, no matter how many samples follow.
pub proof fn lemma_writes_preserve_descs(reg: Seq<FamilyV>, ws: Seq<WriteV>)
    ensures
        desc_seq(apply_writes_spec(reg, ws)) == desc_seq(reg),
    decreases ws.len(),
{
    if ws.len() > 0 {
        lemma_write_preserves_descs(reg, ws[0]);
        lemma_writes_preserve_descs(apply_write_spec(reg, ws[0]), ws.skip(1));
    }
}

/// A write preserves registry well-formedness (spec-level counterpart
/// of [`Registry::apply_write`]'s contract).
pub proof fn lemma_apply_write_spec_wf(reg: Seq<FamilyV>, w: WriteV)
    requires
        registry_wf(reg),
        write_wf(w),
    ensures
        registry_wf(apply_write_spec(reg, w)),
        apply_write_spec(reg, w).len() == reg.len(),
        forall|i: int|
            0 <= i < reg.len() ==> (#[trigger] apply_write_spec(reg, w)[i]).desc == reg[i].desc,
{
    let new = apply_write_spec(reg, w);
    if has_family(reg, w.family) {
        let i = family_idx(reg, w.family);
        assert(0 <= i < reg.len() && reg[i].desc.name == w.family);
        assert(family_wf(reg[i]));
        lemma_upsert_wf(reg[i], w.labels, w.op);
        assert forall|a: int| 0 <= a < new.len() implies family_wf(#[trigger] new[a]) by {
            if a != i {
                assert(family_wf(reg[a]));
            }
        }
        assert forall|a: int, b: int| 0 <= a < b < new.len() implies (
        #[trigger] new[a].desc.name) != (#[trigger] new[b].desc.name) by {
            assert(reg[a].desc.name != reg[b].desc.name);
        }
    }
}

/// A write never changes which families exist.
pub proof fn lemma_apply_write_has_family(reg: Seq<FamilyV>, w: WriteV, name: Seq<char>)
    ensures
        has_family(apply_write_spec(reg, w), name) == has_family(reg, name),
{
    let new = apply_write_spec(reg, w);
    if has_family(reg, w.family) {
        let i = family_idx(reg, w.family);
        assert(new.len() == reg.len());
        assert forall|a: int| 0 <= a < reg.len() implies (#[trigger] new[a]).desc.name
            == reg[a].desc.name by {
        }
        if has_family(reg, name) {
            let a = choose|a: int| 0 <= a < reg.len() && reg[a].desc.name == name;
            assert(new[a].desc.name == name);
        }
        if has_family(new, name) {
            let a = choose|a: int| 0 <= a < new.len() && new[a].desc.name == name;
            assert(reg[a].desc.name == name);
        }
    }
}

/// Under well-formedness, [`family_idx`] is the unique index of the
/// named family.
proof fn lemma_family_idx_unique(reg: Seq<FamilyV>, name: Seq<char>, i: int)
    requires
        registry_wf(reg),
        0 <= i < reg.len(),
        reg[i].desc.name == name,
    ensures
        family_idx(reg, name) == i,
        has_family(reg, name),
{
    assert(0 <= i < reg.len() && reg[i].desc.name == name);
    let c = family_idx(reg, name);
    assert(0 <= c < reg.len() && reg[c].desc.name == name);
    if c != i {
        if c < i {
            assert(reg[c].desc.name != reg[i].desc.name);
        } else {
            assert(reg[i].desc.name != reg[c].desc.name);
        }
    }
}

/// Under family well-formedness, [`series_idx`] is the unique index of
/// the labelled series.
proof fn lemma_series_idx_unique(f: FamilyV, labels: Seq<Seq<char>>, j: int)
    requires
        family_wf(f),
        0 <= j < f.series.len(),
        f.series[j].labels == labels,
    ensures
        series_idx(f, labels) == j,
        has_series(f, labels),
{
    assert(0 <= j < f.series.len() && f.series[j].labels == labels);
    let c = series_idx(f, labels);
    assert(0 <= c < f.series.len() && f.series[c].labels == labels);
    if c != j {
        if c < j {
            assert(f.series[c].labels != f.series[j].labels);
        } else {
            assert(f.series[j].labels != f.series[c].labels);
        }
    }
}

/// A gauge write lands: after setting `(family, labels)` to `v`, that
/// series holds exactly `v`.
pub proof fn lemma_apply_write_set_hit(
    reg: Seq<FamilyV>,
    family: Seq<char>,
    labels: Seq<Seq<char>>,
    v: MetricValue,
)
    requires
        registry_wf(reg),
        has_family(reg, family),
        v.wf(),
    ensures
        value_of(
            apply_write_spec(reg, WriteV { family, labels, op: WriteOp::SetTo(v) }),
            family,
            labels,
        ) == Some(v),
{
    let w = WriteV { family, labels, op: WriteOp::SetTo(v) };
    let new = apply_write_spec(reg, w);
    lemma_apply_write_spec_wf(reg, w);
    lemma_apply_write_has_family(reg, w, family);
    let i = family_idx(reg, family);
    assert(0 <= i < reg.len() && reg[i].desc.name == family);
    let f = reg[i];
    let g = family_upsert(f, labels, w.op);
    assert(new == reg.update(i, g));
    assert(new[i] == g);
    assert(g.desc.name == family);
    lemma_family_idx_unique(new, family, i);
    assert(family_wf(f));
    lemma_upsert_wf(f, labels, w.op);
    if has_series(f, labels) {
        let j = series_idx(f, labels);
        assert(0 <= j < f.series.len() && f.series[j].labels == labels);
        assert(g.series[j].labels == labels);
        assert(g.series[j].value == v);
        lemma_series_idx_unique(g, labels, j);
    } else {
        assert(g.series.last().labels == labels);
        assert(g.series.last().value == v);
        lemma_series_idx_unique(g, labels, g.series.len() - 1);
    }
}

/// A write leaves every other series untouched: the value of any
/// series with a different family name or a different label row is
/// unchanged.
pub proof fn lemma_apply_write_frame(
    reg: Seq<FamilyV>,
    w: WriteV,
    name: Seq<char>,
    labels: Seq<Seq<char>>,
)
    requires
        registry_wf(reg),
        write_wf(w),
        name != w.family || labels != w.labels,
    ensures
        value_of(apply_write_spec(reg, w), name, labels) == value_of(reg, name, labels),
{
    let new = apply_write_spec(reg, w);
    lemma_apply_write_spec_wf(reg, w);
    lemma_apply_write_has_family(reg, w, name);
    if !has_family(reg, w.family) {
    } else if !has_family(reg, name) {
    } else {
        let i = family_idx(reg, w.family);
        assert(0 <= i < reg.len() && reg[i].desc.name == w.family);
        let a = family_idx(reg, name);
        assert(0 <= a < reg.len() && reg[a].desc.name == name);
        assert(new[a].desc.name == name);
        lemma_family_idx_unique(new, name, a);
        if name != w.family {
            assert(a != i);
            assert(new[a] == reg[a]);
        } else {
            // same family, different labels
            assert(a == i) by {
                if a != i {
                    if a < i {
                        assert(reg[a].desc.name != reg[i].desc.name);
                    } else {
                        assert(reg[i].desc.name != reg[a].desc.name);
                    }
                }
            }
            let f = reg[i];
            let g = family_upsert(f, w.labels, w.op);
            assert(family_wf(f));
            lemma_upsert_wf(f, w.labels, w.op);
            // series with `labels` is the same in f and g
            if has_series(f, w.labels) {
                let j = series_idx(f, w.labels);
                assert(0 <= j < f.series.len() && f.series[j].labels == w.labels);
                assert forall|k: int|
                    0 <= k < f.series.len() && k != j implies (#[trigger] g.series[k])
                    == f.series[k] by {
                }
                if has_series(f, labels) {
                    let b = series_idx(f, labels);
                    assert(0 <= b < f.series.len() && f.series[b].labels == labels);
                    assert(b != j);
                    assert(g.series[b].labels == labels);
                    lemma_series_idx_unique(g, labels, b);
                    assert(value_of(new, name, labels) == Some(g.series[b].value));
                    assert(g.series[b].value == f.series[b].value);
                } else {
                    if has_series(g, labels) {
                        let b = series_idx(g, labels);
                        assert(0 <= b < g.series.len() && g.series[b].labels == labels);
                        if b == j {
                            assert(g.series[b].labels == w.labels);
                        } else {
                            assert(f.series[b].labels == labels);
                        }
                        assert(false);
                    }
                }
            } else {
                // appended a fresh series with w.labels
                assert forall|k: int| 0 <= k < f.series.len() implies (#[trigger] g.series[k])
                    == f.series[k] by {
                }
                if has_series(f, labels) {
                    let b = series_idx(f, labels);
                    assert(0 <= b < f.series.len() && f.series[b].labels == labels);
                    assert(g.series[b].labels == labels);
                    lemma_series_idx_unique(g, labels, b);
                    assert(value_of(new, name, labels) == Some(g.series[b].value));
                } else {
                    if has_series(g, labels) {
                        let b = series_idx(g, labels);
                        assert(0 <= b < g.series.len() && g.series[b].labels == labels);
                        if b == g.series.len() - 1 {
                            assert(g.series[b].labels == w.labels);
                        } else {
                            assert(f.series[b].labels == labels);
                        }
                        assert(false);
                    }
                }
            }
        }
    }
}

/// The last gauge write to `(family, labels)` in a batch, if any.
pub open spec fn last_set(ws: Seq<WriteV>, family: Seq<char>, labels: Seq<Seq<char>>) -> Option<
    MetricValue,
>
    decreases ws.len(),
{
    if ws.len() == 0 {
        None
    } else {
        let w = ws.last();
        if w.family == family && w.labels == labels {
            match w.op {
                WriteOp::SetTo(v) => Some(v),
                WriteOp::CounterTo(_) => last_set(ws.drop_last(), family, labels),
            }
        } else {
            last_set(ws.drop_last(), family, labels)
        }
    }
}

/// Whether every write of the batch is a gauge write.
pub open spec fn all_set_writes(ws: Seq<WriteV>) -> bool {
    forall|k: int| 0 <= k < ws.len() ==> (#[trigger] ws[k]).op is SetTo
}

/// What a batch of gauge writes leaves in one series: the value of the
/// last write addressed to it, or its prior value when none was.
pub proof fn lemma_apply_writes_last_set(
    reg: Seq<FamilyV>,
    ws: Seq<WriteV>,
    family: Seq<char>,
    labels: Seq<Seq<char>>,
)
    requires
        registry_wf(reg),
        forall|k: int| 0 <= k < ws.len() ==> write_wf(#[trigger] ws[k]),
        all_set_writes(ws),
        has_family(reg, family),
    ensures
        registry_wf(apply_writes_spec(reg, ws)),
        has_family(apply_writes_spec(reg, ws), family),
        value_of(apply_writes_spec(reg, ws), family, labels) == (match last_set(
            ws,
            family,
            labels,
        ) {
            Some(v) => Some(v),
            None => value_of(reg, family, labels),
        }),
    decreases ws.len(),
{
    if ws.len() == 0 {
    } else {
        let head = ws.take(ws.len() - 1);
        let w = ws.last();
        assert(head =~= ws.drop_last());
        lemma_apply_writes_snoc(reg, ws, ws.len() - 1);
        assert(ws.take(ws.len() as int) =~= ws);
        assert(apply_writes_spec(reg, ws) == apply_write_spec(
            apply_writes_spec(reg, head),
            w,
        ));
        assert(forall|k: int| 0 <= k < head.len() ==> head[k] == ws[k]);
        lemma_apply_writes_last_set(reg, head, family, labels);
        let mid = apply_writes_spec(reg, head);
        lemma_apply_write_spec_wf(mid, w);
        lemma_apply_write_has_family(mid, w, family);
        if w.family == family && w.labels == labels {
            let v = (match w.op {
                WriteOp::SetTo(v) => v,
                WriteOp::CounterTo(_) => MetricValue { num: 0, den: 1 },
            });
            assert(w.op is SetTo);
            assert(write_wf(w));
            lemma_apply_write_set_hit(mid, family, labels, v);
            assert(w == (WriteV { family, labels, op: WriteOp::SetTo(v) }));
        } else {
            lemma_apply_write_frame(mid, w, family, labels);
        }
    }
}

} // verus!
