//! Options of the `netem` queueing discipline and their wire encoding.
use crate::bytes::{
    lemma_ne_bytes_len, lemma_u16_roundtrip, lemma_u32_roundtrip, lemma_u64_roundtrip, ne_bytes_u16,
    ne_value_u32, ne_value_u64, ne_bytes_u32, ne_bytes_u64, write_u16_ne,
    write_u32_ne, write_u64_ne, zeros,
};
use crate::constants::{
    NLA_TYPE_MASK, TCA_NETEM_CORR, TCA_NETEM_CORRUPT, TCA_NETEM_JITTER64, TCA_NETEM_LATENCY64,
    TCA_NETEM_REORDER, TCA_OPTIONS,
};
use crate::nla::{attribute_from_raw, nla_length_field, DefaultNla, NlaModel};
use netlink_packet_utils::DecodeError;
use vstd::prelude::*;

verus! {

/// The options of a `netem` queueing discipline: the base configuration and
/// the optional delay, correlation, corruption and reordering settings.
#[derive(Clone, Debug)]
pub struct NetemQdisc {
    pub config: TcNetemQopt,
    pub delay: Option<TcNetemDelay>,
    pub correlations: Option<TcNetemCorrelations>,
    pub corruption: Option<TcNetemCorrupt>,
    pub reorder: Option<TcNetemReorder>,
}

/// The base configuration of `netem` (`struct tc_netem_qopt`).
#[derive(Clone, Copy, Debug)]
pub struct TcNetemQopt {
    /// limit of number of packets as u32
    pub limit: u32,
    /// loss as percentage
    pub loss: u32,
    /// gap between packets
    pub gap: u32,
    /// duplicate packets as %
    pub duplicate: u32,
}

/// Delay and its standard deviation.
#[derive(Clone, Copy, Debug)]
pub struct TcNetemDelay {
    pub delay: u64,
    pub stddev: u64,
}

/// Correlations of delay, loss and duplication, as percentages.
#[derive(Clone, Copy, Debug)]
pub struct TcNetemCorrelations {
    pub delay_corr: u32,
    pub loss_corr: u32,
    pub dup_corr: u32,
}

/// Reordering probability and correlation, as percentages.
#[derive(Clone, Copy, Debug)]
pub struct TcNetemReorder {
    pub prob: u32,
    pub corr: u32,
}

/// Corruption probability and correlation, as percentages.
#[derive(Clone, Copy, Debug)]
pub struct TcNetemCorrupt {
    pub prob: u32,
    pub corr: u32,
}

impl Default for TcNetemQopt {
    /// A limit of 10240 packets; no loss, gap or duplication.
    fn default() -> (r: Self)
        ensures
            r == (TcNetemQopt { limit: 10240, loss: 0, gap: 0, duplicate: 0 }),
    {
        TcNetemQopt { limit: 10240, loss: 0, gap: 0, duplicate: 0 }
    }
}

impl Default for TcNetemDelay {
    /// No delay.
    fn default() -> (r: Self)
        ensures
            r == (TcNetemDelay { delay: 0, stddev: 0 }),
    {
        TcNetemDelay { delay: 0, stddev: 0 }
    }
}

impl Default for TcNetemCorrelations {
    /// No correlation.
    fn default() -> (r: Self)
        ensures
            r == (TcNetemCorrelations { delay_corr: 0, loss_corr: 0, dup_corr: 0 }),
    {
        TcNetemCorrelations { delay_corr: 0, loss_corr: 0, dup_corr: 0 }
    }
}

impl Default for TcNetemReorder {
    /// No reordering.
    fn default() -> (r: Self)
        ensures
            r == (TcNetemReorder { prob: 0, corr: 0 }),
    {
        TcNetemReorder { prob: 0, corr: 0 }
    }
}

impl Default for TcNetemCorrupt {
    /// No corruption.
    fn default() -> (r: Self)
        ensures
            r == (TcNetemCorrupt { prob: 0, corr: 0 }),
    {
        TcNetemCorrupt { prob: 0, corr: 0 }
    }
}

impl Default for NetemQdisc {
    /// The default configuration, with every optional setting present at its
    /// default.
    fn default() -> (r: Self)
        ensures
            r.config == (TcNetemQopt { limit: 10240, loss: 0, gap: 0, duplicate: 0 }),
            r.delay == Some(TcNetemDelay { delay: 0, stddev: 0 }),
            r.correlations == Some(TcNetemCorrelations { delay_corr: 0, loss_corr: 0, dup_corr: 0 }),
            r.corruption == Some(TcNetemCorrupt { prob: 0, corr: 0 }),
            r.reorder == Some(TcNetemReorder { prob: 0, corr: 0 }),
    {
        NetemQdisc {
            config: TcNetemQopt::default(),
            delay: Some(TcNetemDelay::default()),
            correlations: Some(TcNetemCorrelations::default()),
            corruption: Some(TcNetemCorrupt::default()),
            reorder: Some(TcNetemReorder::default()),
        }
    }
}

/// What one percent is worth in the kernel's probability scale, where
/// `u32::MAX` stands for certainty: `(1 << 31) / 50`.
pub open spec fn percent_scale() -> int {
    0x8000_0000int / 50
}

/// A percentage (`0..=100`) on the kernel's probability scale.
pub open spec fn spec_percent_to_buffer(p: u32) -> int {
    percent_scale() * p
}

/// Converts a percentage (value 0-100) to the value expected by the
/// attribute buffer.
pub fn percent_to_buffer(p: u32) -> (r: u32)
    requires
        p <= 100,
    ensures
        r == spec_percent_to_buffer(p),
{
    let one: u32 = 1;
    let top: u32 = one << 31u32;
    assert(top == 0x8000_0000u32) by (bit_vector)
        requires
            one == 1u32,
            top == one << 31u32,
    ;
    let scale: u32 = top / 50;
    assert(scale == 42949672);
    assert(scale * p <= 42949672 * 100) by (nonlinear_arith)
        requires
            scale == 42949672,
            p <= 100,
    ;
    scale * p
}


/// A percentage on the kernel's probability scale, as the 32-bit field that
/// carries it.
pub open spec fn pct(p: u32) -> u32 {
    spec_percent_to_buffer(p) as u32
}

/// The value of the `TCA_OPTIONS` attribute: limit, loss, gap, duplication
/// and a zero field, each 32 bits in the machine's byte order; loss and
/// duplication on the probability scale.
pub open spec fn qopt_value(c: TcNetemQopt) -> Seq<u8> {
    ne_bytes_u32(c.limit) + ne_bytes_u32(pct(c.loss)) + ne_bytes_u32(c.gap) + ne_bytes_u32(
        pct(c.duplicate),
    ) + ne_bytes_u32(0)
}

/// The value of the correlation attribute: delay, loss and duplication
/// correlations on the probability scale.
pub open spec fn correlations_value(c: TcNetemCorrelations) -> Seq<u8> {
    ne_bytes_u32(pct(c.delay_corr)) + ne_bytes_u32(pct(c.loss_corr)) + ne_bytes_u32(
        pct(c.dup_corr),
    )
}

/// The value of the reordering attribute: probability and correlation on the
/// probability scale, then four zero bytes.
pub open spec fn reorder_value(r: TcNetemReorder) -> Seq<u8> {
    ne_bytes_u32(pct(r.prob)) + ne_bytes_u32(pct(r.corr)) + zeros(4)
}

/// The value of the corruption attribute: probability and correlation on the
/// probability scale, then four zero bytes.
pub open spec fn corrupt_value(c: TcNetemCorrupt) -> Seq<u8> {
    ne_bytes_u32(pct(c.prob)) + ne_bytes_u32(pct(c.corr)) + zeros(4)
}

/// The value of a 64-bit time attribute: the time, then four zero bytes.
pub open spec fn time64_value(t: u64) -> Seq<u8> {
    ne_bytes_u64(t) + zeros(4)
}

/// The correlation attributes of `o`: one, or none when it has no
/// correlation settings.
pub open spec fn correlations_nlas(o: NetemQdisc) -> Seq<NlaModel> {
    match o.correlations {
        Some(c) => seq![NlaModel { kind: TCA_NETEM_CORR, value: correlations_value(c) }],
        None => seq![],
    }
}

/// The reordering attributes of `o`: one, or none.
pub open spec fn reorder_nlas(o: NetemQdisc) -> Seq<NlaModel> {
    match o.reorder {
        Some(r) => seq![NlaModel { kind: TCA_NETEM_REORDER, value: reorder_value(r) }],
        None => seq![],
    }
}

/// The corruption attributes of `o`: one, or none.
pub open spec fn corrupt_nlas(o: NetemQdisc) -> Seq<NlaModel> {
    match o.corruption {
        Some(c) => seq![NlaModel { kind: TCA_NETEM_CORRUPT, value: corrupt_value(c) }],
        None => seq![],
    }
}

/// The delay attributes of `o`: a 64-bit latency attribute that carries the
/// delay, then a 64-bit jitter attribute that carries its standard
/// deviation; or none.
pub open spec fn delay_nlas(o: NetemQdisc) -> Seq<NlaModel> {
    match o.delay {
        Some(d) => seq![
            NlaModel { kind: TCA_NETEM_LATENCY64, value: time64_value(d.delay) },
            NlaModel { kind: TCA_NETEM_JITTER64, value: time64_value(d.stddev) },
        ],
        None => seq![],
    }
}

/// The options of a `netem` queueing discipline, in order: the base
/// configuration, then correlations, reordering, corruption and delay where
/// they are set.
pub open spec fn netem_options(o: NetemQdisc) -> Seq<NlaModel> {
    seq![NlaModel { kind: TCA_OPTIONS, value: qopt_value(o.config) }] + correlations_nlas(o)
        + reorder_nlas(o) + corrupt_nlas(o) + delay_nlas(o)
}

/// Every percentage that the options of `o` encode lies in `0..=100`.
pub open spec fn netem_percentages_valid(o: NetemQdisc) -> bool {
    &&& o.config.loss <= 100
    &&& o.config.duplicate <= 100
    &&& (o.correlations matches Some(c) ==> c.delay_corr <= 100 && c.loss_corr <= 100
        && c.dup_corr <= 100)
    &&& (o.reorder matches Some(r) ==> r.prob <= 100 && r.corr <= 100)
    &&& (o.corruption matches Some(c) ==> c.prob <= 100 && c.corr <= 100)
}

/// Whether every percentage that the options of `o` encode lies in
/// `0..=100`, the condition under which a netem request can be built.
pub fn netem_percentages_ok(o: &NetemQdisc) -> (b: bool)
    ensures
        b == netem_percentages_valid(*o),
{
    if o.config.loss > 100 || o.config.duplicate > 100 {
        return false;
    }
    if let Some(c) = o.correlations {
        if c.delay_corr > 100 || c.loss_corr > 100 || c.dup_corr > 100 {
            return false;
        }
    }
    if let Some(r) = o.reorder {
        if r.prob > 100 || r.corr > 100 {
            return false;
        }
    }
    if let Some(c) = o.corruption {
        if c.prob > 100 || c.corr > 100 {
            return false;
        }
    }
    true
}

pub(crate) proof fn lemma_netem_kinds_unmasked()
    ensures
        TCA_OPTIONS & NLA_TYPE_MASK == TCA_OPTIONS,
        TCA_NETEM_CORR & NLA_TYPE_MASK == TCA_NETEM_CORR,
        TCA_NETEM_REORDER & NLA_TYPE_MASK == TCA_NETEM_REORDER,
        TCA_NETEM_CORRUPT & NLA_TYPE_MASK == TCA_NETEM_CORRUPT,
        TCA_NETEM_LATENCY64 & NLA_TYPE_MASK == TCA_NETEM_LATENCY64,
        TCA_NETEM_JITTER64 & NLA_TYPE_MASK == TCA_NETEM_JITTER64,
{
    assert(2u16 & 0x3FFFu16 == 2u16) by (bit_vector);
    assert(1u16 & 0x3FFFu16 == 1u16) by (bit_vector);
    assert(3u16 & 0x3FFFu16 == 3u16) by (bit_vector);
    assert(4u16 & 0x3FFFu16 == 4u16) by (bit_vector);
    assert(10u16 & 0x3FFFu16 == 10u16) by (bit_vector);
    assert(11u16 & 0x3FFFu16 == 11u16) by (bit_vector);
}

/// A zero-filled raw buffer of `size` bytes.
fn zeroed(size: usize) -> (raw: Vec<u8>)
    ensures
        raw@ == zeros(size as nat),
{
    let raw: Vec<u8> = vec![0u8; size];
    assert(raw@ =~= zeros(size as nat));
    raw
}

/// The base-configuration attribute (`TCA_OPTIONS`) of `c`, framed in a
/// 24-byte buffer.
pub fn qopt_attribute(c: &TcNetemQopt) -> (r: Result<DefaultNla, DecodeError>)
    requires
        c.loss <= 100,
        c.duplicate <= 100,
    ensures
        r matches Ok(nla) && nla@ == (NlaModel { kind: TCA_OPTIONS, value: qopt_value(*c) }),
{
    proof {
        lemma_ne_bytes_len(24, 0, 0);
    }
    let mut raw = zeroed(24);
    write_u16_ne(&mut raw, 0, 2, 24);
    assert(raw@ =~= ne_bytes_u16(24) + zeros(22));
    write_u32_ne(&mut raw, 4, 8, c.limit);
    assert(raw@ =~= ne_bytes_u16(24) + zeros(2) + ne_bytes_u32(c.limit) + zeros(16));
    let loss = percent_to_buffer(c.loss);
    write_u32_ne(&mut raw, 8, 12, loss);
    assert(raw@ =~= ne_bytes_u16(24) + zeros(2) + ne_bytes_u32(c.limit) + ne_bytes_u32(loss)
        + zeros(12));
    write_u32_ne(&mut raw, 12, 16, c.gap);
    assert(raw@ =~= ne_bytes_u16(24) + zeros(2) + ne_bytes_u32(c.limit) + ne_bytes_u32(loss)
        + ne_bytes_u32(c.gap) + zeros(8));
    let duplicate = percent_to_buffer(c.duplicate);
    write_u32_ne(&mut raw, 16, 20, duplicate);
    assert(raw@ =~= ne_bytes_u16(24) + zeros(2) + ne_bytes_u32(c.limit) + ne_bytes_u32(loss)
        + ne_bytes_u32(c.gap) + ne_bytes_u32(duplicate) + zeros(4));
    write_u32_ne(&mut raw, 20, 24, 0);
    proof {
        assert(raw@ =~= ne_bytes_u16(24) + zeros(2) + qopt_value(*c));
        assert(raw@.subrange(0, 2) =~= ne_bytes_u16(24));
        lemma_u16_roundtrip(24);
        assert(nla_length_field(raw@) == 24);
        assert(raw@.subrange(4, 24) =~= qopt_value(*c));
        lemma_netem_kinds_unmasked();
    }
    attribute_from_raw(raw, TCA_OPTIONS)
}


/// The correlation attribute (`TCA_NETEM_CORR`) of `c`, framed in a 16-byte
/// buffer.
pub fn correlations_attribute(c: &TcNetemCorrelations) -> (r: Result<DefaultNla, DecodeError>)
    requires
        c.delay_corr <= 100,
        c.loss_corr <= 100,
        c.dup_corr <= 100,
    ensures
        r matches Ok(nla) && nla@ == (NlaModel {
            kind: TCA_NETEM_CORR,
            value: correlations_value(*c),
        }),
{
    proof {
        lemma_ne_bytes_len(16, 0, 0);
    }
    let buf_size: usize = 16;
    let mut raw = zeroed(buf_size);
    write_u16_ne(&mut raw, 0, 2, buf_size as u16);
    assert(raw@ =~= ne_bytes_u16(16) + zeros(14));
    let delay_corr = percent_to_buffer(c.delay_corr);
    write_u32_ne(&mut raw, 4, 8, delay_corr);
    assert(raw@ =~= ne_bytes_u16(16) + zeros(2) + ne_bytes_u32(delay_corr) + zeros(8));
    let loss_corr = percent_to_buffer(c.loss_corr);
    write_u32_ne(&mut raw, 8, 12, loss_corr);
    assert(raw@ =~= ne_bytes_u16(16) + zeros(2) + ne_bytes_u32(delay_corr) + ne_bytes_u32(
        loss_corr,
    ) + zeros(4));
    let dup_corr = percent_to_buffer(c.dup_corr);
    write_u32_ne(&mut raw, 12, 16, dup_corr);
    proof {
        assert(raw@ =~= ne_bytes_u16(16) + zeros(2) + correlations_value(*c));
        assert(raw@.subrange(0, 2) =~= ne_bytes_u16(16));
        lemma_u16_roundtrip(16);
        assert(raw@.subrange(4, 16) =~= correlations_value(*c));
        lemma_netem_kinds_unmasked();
    }
    attribute_from_raw(raw, TCA_NETEM_CORR)
}

/// The reordering attribute (`TCA_NETEM_REORDER`) of `r`, framed in a
/// 16-byte buffer.
pub fn reorder_attribute(r: &TcNetemReorder) -> (res: Result<DefaultNla, DecodeError>)
    requires
        r.prob <= 100,
        r.corr <= 100,
    ensures
        res matches Ok(nla) && nla@ == (NlaModel {
            kind: TCA_NETEM_REORDER,
            value: reorder_value(*r),
        }),
{
    proof {
        lemma_ne_bytes_len(16, 0, 0);
    }
    let buf_size: usize = 16;
    let mut raw = zeroed(buf_size);
    write_u16_ne(&mut raw, 0, 2, buf_size as u16);
    assert(raw@ =~= ne_bytes_u16(16) + zeros(14));
    let prob = percent_to_buffer(r.prob);
    write_u32_ne(&mut raw, 4, 8, prob);
    assert(raw@ =~= ne_bytes_u16(16) + zeros(2) + ne_bytes_u32(prob) + zeros(8));
    let corr = percent_to_buffer(r.corr);
    write_u32_ne(&mut raw, 8, 12, corr);
    proof {
        assert(raw@ =~= ne_bytes_u16(16) + zeros(2) + reorder_value(*r));
        assert(raw@.subrange(0, 2) =~= ne_bytes_u16(16));
        lemma_u16_roundtrip(16);
        assert(raw@.subrange(4, 16) =~= reorder_value(*r));
        lemma_netem_kinds_unmasked();
    }
    attribute_from_raw(raw, TCA_NETEM_REORDER)
}

/// The corruption attribute (`TCA_NETEM_CORRUPT`) of `c`, framed in a
/// 16-byte buffer.
pub fn corrupt_attribute(c: &TcNetemCorrupt) -> (r: Result<DefaultNla, DecodeError>)
    requires
        c.prob <= 100,
        c.corr <= 100,
    ensures
        r matches Ok(nla) && nla@ == (NlaModel {
            kind: TCA_NETEM_CORRUPT,
            value: corrupt_value(*c),
        }),
{
    proof {
        lemma_ne_bytes_len(16, 0, 0);
    }
    let buf_size: usize = 16;
    let mut raw = zeroed(buf_size);
    write_u16_ne(&mut raw, 0, 2, buf_size as u16);
    assert(raw@ =~= ne_bytes_u16(16) + zeros(14));
    let prob = percent_to_buffer(c.prob);
    write_u32_ne(&mut raw, 4, 8, prob);
    assert(raw@ =~= ne_bytes_u16(16) + zeros(2) + ne_bytes_u32(prob) + zeros(8));
    let corr = percent_to_buffer(c.corr);
    write_u32_ne(&mut raw, 8, 12, corr);
    proof {
        assert(raw@ =~= ne_bytes_u16(16) + zeros(2) + corrupt_value(*c));
        assert(raw@.subrange(0, 2) =~= ne_bytes_u16(16));
        lemma_u16_roundtrip(16);
        assert(raw@.subrange(4, 16) =~= corrupt_value(*c));
        lemma_netem_kinds_unmasked();
    }
    attribute_from_raw(raw, TCA_NETEM_CORRUPT)
}

/// A 64-bit time attribute of kind `kind` carrying `t`, framed in a 16-byte
/// buffer.
pub fn time64_attribute(kind: u16, t: u64) -> (r: Result<DefaultNla, DecodeError>)
    ensures
        r matches Ok(nla) && nla@ == (NlaModel {
            kind: kind & NLA_TYPE_MASK,
            value: time64_value(t),
        }),
{
    proof {
        lemma_ne_bytes_len(16, 0, t);
    }
    let buf_size: usize = 16;
    let mut raw = zeroed(buf_size);
    write_u16_ne(&mut raw, 0, 2, buf_size as u16);
    assert(raw@ =~= ne_bytes_u16(16) + zeros(14));
    write_u64_ne(&mut raw, 4, 12, t);
    proof {
        assert(raw@ =~= ne_bytes_u16(16) + zeros(2) + time64_value(t));
        assert(raw@.subrange(0, 2) =~= ne_bytes_u16(16));
        lemma_u16_roundtrip(16);
        assert(raw@.subrange(4, 16) =~= time64_value(t));
    }
    attribute_from_raw(raw, kind)
}


/// A higher percentage is never encoded as a smaller value.
pub proof fn lemma_percent_to_buffer_monotonic(p: u32, q: u32)
    requires
        p <= q <= 100,
    ensures
        spec_percent_to_buffer(p) <= spec_percent_to_buffer(q) <= u32::MAX,
{
    assert(42949672 * p <= 42949672 * q <= 42949672 * 100) by (nonlinear_arith)
        requires
            p <= q <= 100,
    ;
}

/// Reading the `netem` option values back, field by field in the machine's
/// byte order, gives the configured settings (percentages on the
/// probability scale).
pub proof fn lemma_netem_values_decode(o: NetemQdisc)
    ensures
        ne_value_u32(qopt_value(o.config).subrange(0, 4)) == o.config.limit,
        ne_value_u32(qopt_value(o.config).subrange(4, 8)) == pct(o.config.loss),
        ne_value_u32(qopt_value(o.config).subrange(8, 12)) == o.config.gap,
        ne_value_u32(qopt_value(o.config).subrange(12, 16)) == pct(o.config.duplicate),
        qopt_value(o.config).len() == 20,
        o.correlations matches Some(c) ==> {
            &&& ne_value_u32(correlations_value(c).subrange(0, 4)) == pct(c.delay_corr)
            &&& ne_value_u32(correlations_value(c).subrange(4, 8)) == pct(c.loss_corr)
            &&& ne_value_u32(correlations_value(c).subrange(8, 12)) == pct(c.dup_corr)
            &&& correlations_value(c).len() == 12
        },
        o.reorder matches Some(r) ==> {
            &&& ne_value_u32(reorder_value(r).subrange(0, 4)) == pct(r.prob)
            &&& ne_value_u32(reorder_value(r).subrange(4, 8)) == pct(r.corr)
            &&& reorder_value(r).len() == 12
        },
        o.corruption matches Some(c) ==> {
            &&& ne_value_u32(corrupt_value(c).subrange(0, 4)) == pct(c.prob)
            &&& ne_value_u32(corrupt_value(c).subrange(4, 8)) == pct(c.corr)
            &&& corrupt_value(c).len() == 12
        },
        o.delay matches Some(d) ==> {
            &&& ne_value_u64(time64_value(d.stddev).subrange(0, 8)) == d.stddev
            &&& ne_value_u64(time64_value(d.delay).subrange(0, 8)) == d.delay
            &&& time64_value(d.delay).len() == 12
        },
{
    let c = o.config;
    lemma_ne_bytes_len(0, c.limit, 0);
    lemma_ne_bytes_len(0, pct(c.loss), 0);
    lemma_ne_bytes_len(0, c.gap, 0);
    lemma_ne_bytes_len(0, pct(c.duplicate), 0);
    lemma_ne_bytes_len(0, 0, 0);
    assert(qopt_value(c).subrange(0, 4) =~= ne_bytes_u32(c.limit));
    assert(qopt_value(c).subrange(4, 8) =~= ne_bytes_u32(pct(c.loss)));
    assert(qopt_value(c).subrange(8, 12) =~= ne_bytes_u32(c.gap));
    assert(qopt_value(c).subrange(12, 16) =~= ne_bytes_u32(pct(c.duplicate)));
    lemma_u32_roundtrip(c.limit);
    lemma_u32_roundtrip(pct(c.loss));
    lemma_u32_roundtrip(c.gap);
    lemma_u32_roundtrip(pct(c.duplicate));
    if let Some(k) = o.correlations {
        lemma_ne_bytes_len(0, pct(k.delay_corr), 0);
        lemma_ne_bytes_len(0, pct(k.loss_corr), 0);
        lemma_ne_bytes_len(0, pct(k.dup_corr), 0);
        assert(correlations_value(k).subrange(0, 4) =~= ne_bytes_u32(pct(k.delay_corr)));
        assert(correlations_value(k).subrange(4, 8) =~= ne_bytes_u32(pct(k.loss_corr)));
        assert(correlations_value(k).subrange(8, 12) =~= ne_bytes_u32(pct(k.dup_corr)));
        lemma_u32_roundtrip(pct(k.delay_corr));
        lemma_u32_roundtrip(pct(k.loss_corr));
        lemma_u32_roundtrip(pct(k.dup_corr));
    }
    if let Some(r) = o.reorder {
        lemma_ne_bytes_len(0, pct(r.prob), 0);
        lemma_ne_bytes_len(0, pct(r.corr), 0);
        assert(reorder_value(r).subrange(0, 4) =~= ne_bytes_u32(pct(r.prob)));
        assert(reorder_value(r).subrange(4, 8) =~= ne_bytes_u32(pct(r.corr)));
        lemma_u32_roundtrip(pct(r.prob));
        lemma_u32_roundtrip(pct(r.corr));
    }
    if let Some(k) = o.corruption {
        lemma_ne_bytes_len(0, pct(k.prob), 0);
        lemma_ne_bytes_len(0, pct(k.corr), 0);
        assert(corrupt_value(k).subrange(0, 4) =~= ne_bytes_u32(pct(k.prob)));
        assert(corrupt_value(k).subrange(4, 8) =~= ne_bytes_u32(pct(k.corr)));
        lemma_u32_roundtrip(pct(k.prob));
        lemma_u32_roundtrip(pct(k.corr));
    }
    if let Some(d) = o.delay {
        lemma_ne_bytes_len(0, 0, d.stddev);
        lemma_ne_bytes_len(0, 0, d.delay);
        assert(time64_value(d.stddev).subrange(0, 8) =~= ne_bytes_u64(d.stddev));
        assert(time64_value(d.delay).subrange(0, 8) =~= ne_bytes_u64(d.delay));
        lemma_u64_roundtrip(d.stddev);
        lemma_u64_roundtrip(d.delay);
    }
}

} // verus!
