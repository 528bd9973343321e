//! What the `netem` options are for, stated over all settings: which
//! attributes a request carries, what each one decodes to, how percentages
//! are scaled, and which percentages are accepted.
use crate::bytes::{in_native_order, lemma_ne_bytes_len, ne_bytes_u32, ne_value_u32, ne_value_u64, zeros};
use crate::constants::{
    TCA_NETEM_CORR, TCA_NETEM_CORRUPT, TCA_NETEM_JITTER64, TCA_NETEM_LATENCY64, TCA_NETEM_REORDER,
    TCA_OPTIONS,
};
use crate::netem::{
    correlations_nlas, corrupt_nlas, delay_nlas, lemma_netem_values_decode, netem_options,
    netem_percentages_valid, pct, reorder_nlas, spec_percent_to_buffer, NetemQdisc,
    TcNetemCorrelations, TcNetemCorrupt, TcNetemDelay, TcNetemQopt, TcNetemReorder,
};
use crate::nla::NlaModel;
use vstd::prelude::*;

verus! {

/// A percentage `p` is sent as `p` times `(1 << 31) / 50` = 42949672, so
/// that 100 % is just below `u32::MAX`.
pub proof fn lemma_percent_to_buffer_scale(p: u32)
    requires
        p <= 100,
    ensures
        spec_percent_to_buffer(p) == 42949672 * p,
        pct(p) == 42949672 * p,
        0 <= spec_percent_to_buffer(p) <= 4294967200,
{
    assert(0x8000_0000int / 50 == 42949672);
    assert(0 <= 42949672 * p <= 42949672 * 100) by (nonlinear_arith)
        requires
            p <= 100,
    ;
}

/// Scaling is additive: the value of a sum of percentages is the sum of
/// their values, and one percent is worth `(1 << 31) / 50`.
pub proof fn lemma_percent_to_buffer_additive(p: u32, q: u32)
    requires
        p + q <= 100,
    ensures
        spec_percent_to_buffer((p + q) as u32) == spec_percent_to_buffer(p)
            + spec_percent_to_buffer(q),
        spec_percent_to_buffer(1) == 0x8000_0000int / 50,
        spec_percent_to_buffer(0) == 0,
{
    lemma_percent_to_buffer_scale(p);
    lemma_percent_to_buffer_scale(q);
    lemma_percent_to_buffer_scale((p + q) as u32);
    lemma_percent_to_buffer_scale(1);
    lemma_percent_to_buffer_scale(0);
    assert(42949672 * (p + q) == 42949672 * p + 42949672 * q) by (nonlinear_arith);
}

/// The percentages that the default options carry are accepted.
pub proof fn lemma_default_percentages_accepted()
    ensures
        netem_percentages_valid(
            NetemQdisc {
                config: TcNetemQopt { limit: 10240, loss: 0, gap: 0, duplicate: 0 },
                delay: Some(TcNetemDelay { delay: 0, stddev: 0 }),
                correlations: Some(TcNetemCorrelations { delay_corr: 0, loss_corr: 0, dup_corr: 0 }),
                corruption: Some(TcNetemCorrupt { prob: 0, corr: 0 }),
                reorder: Some(TcNetemReorder { prob: 0, corr: 0 }),
            },
        ),
{
}

/// Every percentage is bounded by 100 on its own: in accepted options,
/// setting any one percentage to any value up to 100 keeps them accepted,
/// and so does changing the limit, the gap, the delay, or leaving a setting
/// out.
pub proof fn lemma_percentages_bounded_one_by_one(o: NetemQdisc, p: u32, n: u32, d: Option<TcNetemDelay>)
    requires
        netem_percentages_valid(o),
        p <= 100,
    ensures
        netem_percentages_valid(NetemQdisc { config: TcNetemQopt { loss: p, ..o.config }, ..o }),
        netem_percentages_valid(NetemQdisc { config: TcNetemQopt { duplicate: p, ..o.config }, ..o }),
        netem_percentages_valid(NetemQdisc { config: TcNetemQopt { limit: n, gap: n, ..o.config }, delay: d, ..o }),
        netem_percentages_valid(NetemQdisc { correlations: None, reorder: None, corruption: None, ..o }),
        o.correlations matches Some(c) ==> {
            &&& netem_percentages_valid(NetemQdisc { correlations: Some(TcNetemCorrelations { delay_corr: p, ..c }), ..o })
            &&& netem_percentages_valid(NetemQdisc { correlations: Some(TcNetemCorrelations { loss_corr: p, ..c }), ..o })
            &&& netem_percentages_valid(NetemQdisc { correlations: Some(TcNetemCorrelations { dup_corr: p, ..c }), ..o })
        },
        o.reorder matches Some(r) ==> {
            &&& netem_percentages_valid(NetemQdisc { reorder: Some(TcNetemReorder { prob: p, ..r }), ..o })
            &&& netem_percentages_valid(NetemQdisc { reorder: Some(TcNetemReorder { corr: p, ..r }), ..o })
        },
        o.corruption matches Some(c) ==> {
            &&& netem_percentages_valid(NetemQdisc { corruption: Some(TcNetemCorrupt { prob: p, ..c }), ..o })
            &&& netem_percentages_valid(NetemQdisc { corruption: Some(TcNetemCorrupt { corr: p, ..c }), ..o })
        },
{
}

/// A percentage above 100 anywhere that the options carry is refused.
pub proof fn lemma_percentages_above_100_refused(o: NetemQdisc)
    requires
        netem_percentages_valid(o),
    ensures
        o.config.loss <= 100,
        o.config.duplicate <= 100,
        o.correlations matches Some(c) ==> c.delay_corr <= 100 && c.loss_corr <= 100 && c.dup_corr <= 100,
        o.reorder matches Some(r) ==> r.prob <= 100 && r.corr <= 100,
        o.corruption matches Some(c) ==> c.prob <= 100 && c.corr <= 100,
{
}

/// The kinds of a sequence of attributes, in order.
pub open spec fn option_kinds(s: Seq<NlaModel>) -> Seq<u16> {
    s.map_values(|n: NlaModel| n.kind)
}

/// Each setting is sent exactly when it is present, whatever the others
/// are: the base configuration first, then a correlation attribute when
/// there are correlations, a reordering attribute when there is reordering,
/// a corruption attribute when there is corruption, and the latency and
/// jitter attributes when there is a delay.
pub proof fn lemma_netem_option_kinds(o: NetemQdisc)
    ensures
        option_kinds(netem_options(o)) == seq![TCA_OPTIONS] + (if o.correlations is Some {
            seq![TCA_NETEM_CORR]
        } else {
            Seq::<u16>::empty()
        }) + (if o.reorder is Some {
            seq![TCA_NETEM_REORDER]
        } else {
            Seq::<u16>::empty()
        }) + (if o.corruption is Some {
            seq![TCA_NETEM_CORRUPT]
        } else {
            Seq::<u16>::empty()
        }) + (if o.delay is Some {
            seq![TCA_NETEM_LATENCY64, TCA_NETEM_JITTER64]
        } else {
            Seq::<u16>::empty()
        }),
{
    let a = seq![NlaModel { kind: TCA_OPTIONS, value: crate::netem::qopt_value(o.config) }];
    let b = correlations_nlas(o);
    let c = reorder_nlas(o);
    let d = corrupt_nlas(o);
    let e = delay_nlas(o);
    assert(option_kinds(a + b + c + d + e) =~= option_kinds(a) + option_kinds(b) + option_kinds(c)
        + option_kinds(d) + option_kinds(e));
    assert(option_kinds(a) =~= seq![TCA_OPTIONS]);
    assert(option_kinds(b) =~= (if o.correlations is Some {
        seq![TCA_NETEM_CORR]
    } else {
        Seq::<u16>::empty()
    }));
    assert(option_kinds(c) =~= (if o.reorder is Some {
        seq![TCA_NETEM_REORDER]
    } else {
        Seq::<u16>::empty()
    }));
    assert(option_kinds(d) =~= (if o.corruption is Some {
        seq![TCA_NETEM_CORRUPT]
    } else {
        Seq::<u16>::empty()
    }));
    assert(option_kinds(e) =~= (if o.delay is Some {
        seq![TCA_NETEM_LATENCY64, TCA_NETEM_JITTER64]
    } else {
        Seq::<u16>::empty()
    }));
}

/// What an attribute of each kind must carry for the options `o`, read
/// field by field in the machine's byte order: the base configuration, the
/// correlations, the reordering or corruption probabilities (percentages on
/// the scale of `lemma_percent_to_buffer_scale`), the delay in the latency
/// attribute and its standard deviation in the jitter attribute, with the
/// unused trailing field zero.
pub open spec fn carries_setting(o: NetemQdisc, n: NlaModel) -> bool {
    &&& n.kind == TCA_OPTIONS ==> {
        &&& n.value.len() == 20
        &&& ne_value_u32(n.value.subrange(0, 4)) == o.config.limit
        &&& ne_value_u32(n.value.subrange(4, 8)) == pct(o.config.loss)
        &&& ne_value_u32(n.value.subrange(8, 12)) == o.config.gap
        &&& ne_value_u32(n.value.subrange(12, 16)) == pct(o.config.duplicate)
        &&& ne_value_u32(n.value.subrange(16, 20)) == 0
    }
    &&& n.kind == TCA_NETEM_CORR ==> (o.correlations matches Some(c) && {
        &&& n.value.len() == 12
        &&& ne_value_u32(n.value.subrange(0, 4)) == pct(c.delay_corr)
        &&& ne_value_u32(n.value.subrange(4, 8)) == pct(c.loss_corr)
        &&& ne_value_u32(n.value.subrange(8, 12)) == pct(c.dup_corr)
    })
    &&& n.kind == TCA_NETEM_REORDER ==> (o.reorder matches Some(r) && {
        &&& n.value.len() == 12
        &&& ne_value_u32(n.value.subrange(0, 4)) == pct(r.prob)
        &&& ne_value_u32(n.value.subrange(4, 8)) == pct(r.corr)
        &&& ne_value_u32(n.value.subrange(8, 12)) == 0
    })
    &&& n.kind == TCA_NETEM_CORRUPT ==> (o.corruption matches Some(c) && {
        &&& n.value.len() == 12
        &&& ne_value_u32(n.value.subrange(0, 4)) == pct(c.prob)
        &&& ne_value_u32(n.value.subrange(4, 8)) == pct(c.corr)
        &&& ne_value_u32(n.value.subrange(8, 12)) == 0
    })
    &&& n.kind == TCA_NETEM_LATENCY64 ==> (o.delay matches Some(d) && {
        &&& n.value.len() == 12
        &&& ne_value_u64(n.value.subrange(0, 8)) == d.delay
        &&& ne_value_u32(n.value.subrange(8, 12)) == 0
    })
    &&& n.kind == TCA_NETEM_JITTER64 ==> (o.delay matches Some(d) && {
        &&& n.value.len() == 12
        &&& ne_value_u64(n.value.subrange(0, 8)) == d.stddev
        &&& ne_value_u32(n.value.subrange(8, 12)) == 0
    })
}

proof fn lemma_zero_field()
    ensures
        ne_value_u32(zeros(4)) == 0,
        ne_value_u32(ne_bytes_u32(0)) == 0,
{
    assert(in_native_order(zeros(4)) =~= zeros(4));
    let z = zeros(4);
    assert(z[0] == 0 && z[1] == 0 && z[2] == 0 && z[3] == 0);
    let a: u8 = 0;
    assert(((a as u32) | ((a as u32) << 8u32) | ((a as u32) << 16u32) | ((a as u32) << 24u32))
        == 0u32) by (bit_vector)
        requires
            a == 0u8,
    ;
    crate::bytes::lemma_u32_roundtrip(0);
}

/// Every attribute that the options of `o` hold carries the setting that
/// its kind names, as `carries_setting` reads it.
pub proof fn lemma_netem_options_carry_settings(o: NetemQdisc)
    ensures
        forall|i: int|
            0 <= i < netem_options(o).len() ==> carries_setting(o, #[trigger] netem_options(o)[i]),
{
    lemma_netem_values_decode(o);
    lemma_zero_field();
    let c = o.config;
    let qv = crate::netem::qopt_value(c);
    lemma_ne_bytes_len(0, 0, 0);
    assert(qv.subrange(16, 20) =~= ne_bytes_u32(0));
    let a = seq![NlaModel { kind: TCA_OPTIONS, value: qv }];
    let b = correlations_nlas(o);
    let r = reorder_nlas(o);
    let d = corrupt_nlas(o);
    let e = delay_nlas(o);
    assert(carries_setting(o, a[0]));
    if let Some(k) = o.correlations {
        assert(carries_setting(o, b[0]));
    }
    if let Some(k) = o.reorder {
        let v = crate::netem::reorder_value(k);
        assert(v.subrange(8, 12) =~= zeros(4));
        assert(carries_setting(o, r[0]));
    }
    if let Some(k) = o.corruption {
        let v = crate::netem::corrupt_value(k);
        assert(v.subrange(8, 12) =~= zeros(4));
        assert(carries_setting(o, d[0]));
    }
    if let Some(k) = o.delay {
        let v1 = crate::netem::time64_value(k.delay);
        let v2 = crate::netem::time64_value(k.stddev);
        lemma_ne_bytes_len(0, 0, k.delay);
        lemma_ne_bytes_len(0, 0, k.stddev);
        assert(v1.subrange(8, 12) =~= zeros(4));
        assert(v2.subrange(8, 12) =~= zeros(4));
        assert(v2.len() == 12);
        assert(carries_setting(o, e[0]));
        assert(carries_setting(o, e[1]));
    }
    let all = a + b + r + d + e;
    assert(netem_options(o) == all);
    assert forall|i: int| 0 <= i < all.len() implies carries_setting(o, #[trigger] all[i]) by {
        let la = a.len() as int;
        let lb = b.len() as int;
        let lr = r.len() as int;
        let ld = d.len() as int;
        if i < la {
            assert(all[i] == a[i]);
        } else if i < la + lb {
            assert(all[i] == b[i - la]);
        } else if i < la + lb + lr {
            assert(all[i] == r[i - la - lb]);
        } else if i < la + lb + lr + ld {
            assert(all[i] == d[i - la - lb - lr]);
        } else {
            assert(all[i] == e[i - la - lb - lr - ld]);
        }
    }
}

} // verus!
