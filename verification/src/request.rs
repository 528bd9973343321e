//! The request that adds a queueing discipline: its message and netlink
//! flags, and the builder steps that fill them in.
use crate::constants::{
    INGRESS_HANDLE, NLM_F_REQUEST, TCA_NETEM_JITTER64, TCA_NETEM_LATENCY64, TCA_OPTIONS,
    TC_H_INGRESS, TC_H_MAJ_MASK, TC_H_MIN_MASK, TC_H_ROOT, TC_H_UNSPEC,
};
use crate::message::{
    opts_view, TcHeader, TcMessage, TcMessageModel, TcNla, TcNlaModel, TcOpt, TcOptModel,
};
use crate::netem::{
    correlations_attribute, correlations_nlas, corrupt_attribute, corrupt_nlas, delay_nlas,
    lemma_netem_kinds_unmasked, netem_options, netem_percentages_valid, qopt_attribute,
    qopt_value, reorder_attribute, reorder_nlas, time64_attribute, NetemQdisc,
};
use crate::nla::NlaModel;
use netlink_packet_utils::DecodeError;
use vstd::prelude::*;

verus! {

/// A traffic-control handle from its major and minor halves, each masked to
/// its half of the word.
pub open spec fn tc_h_make(maj: u32, min: u32) -> u32 {
    (maj & TC_H_MAJ_MASK) | (min & TC_H_MIN_MASK)
}

/// The handle with major number `maj` and minor number `min`.
pub open spec fn handle_of(maj: u16, min: u16) -> u32 {
    tc_h_make((maj as u32) << 16u32, min as u32)
}

/// Attributes as option attributes of the unstructured kind.
pub open spec fn as_opts(s: Seq<NlaModel>) -> Seq<TcOptModel> {
    s.map_values(|n: NlaModel| TcOptModel::Other(n))
}

/// A request to add a queueing discipline.
pub struct QDiscNewRequest {
    message: TcMessage,
    flags: u16,
}

/// A request as mathematical values.
pub struct RequestModel {
    pub message: TcMessageModel,
    pub flags: u16,
}

impl View for QDiscNewRequest {
    type V = RequestModel;

    closed spec fn view(&self) -> RequestModel {
        RequestModel { message: self.message@, flags: self.flags }
    }
}

impl QDiscNewRequest {
    /// Every request carries the netlink request flag.
    #[verifier::type_invariant]
    spec fn carries_request_flag(self) -> bool {
        self.flags & NLM_F_REQUEST == NLM_F_REQUEST
    }

    /// A request carrying `message`, with the netlink flags `flags` and the
    /// request flag.
    pub fn new(message: TcMessage, flags: u16) -> (r: Self)
        ensures
            r@.message == message@,
            r@.flags == NLM_F_REQUEST | flags,
            r@.flags & NLM_F_REQUEST == NLM_F_REQUEST,
    {
        let f = NLM_F_REQUEST | flags;
        assert((1u16 | flags) & 1u16 == 1u16) by (bit_vector);
        QDiscNewRequest { message, flags: f }
    }

    /// The message that the request carries.
    pub fn message(&self) -> (m: &TcMessage)
        ensures
            m@ == self@.message,
    {
        &self.message
    }

    /// The netlink flags of the request.
    pub fn flags(&self) -> (f: u16)
        ensures
            f == self@.flags,
            f & NLM_F_REQUEST == NLM_F_REQUEST,
    {
        proof {
            use_type_invariant(self);
        }
        self.flags
    }

    /// The message and the flags, taken apart.
    pub fn into_parts(self) -> (r: (TcMessage, u16))
        ensures
            r.0@ == self@.message,
            r.1 == self@.flags,
            r.1 & NLM_F_REQUEST == NLM_F_REQUEST,
    {
        proof {
            use_type_invariant(&self);
        }
        (self.message, self.flags)
    }

    /// Set handle: major number `maj`, minor number `min`.
    pub fn handle(self, maj: u16, min: u16) -> (r: Self)
        ensures
            r@.message.header == (TcHeader { handle: handle_of(maj, min), ..self@.message.header }),
            r@.message.nlas == self@.message.nlas,
            r@.flags == self@.flags,
    {
        proof {
            use_type_invariant(&self);
        }
        let mut req = self;
        req.message.header.handle = ((maj as u32) << 16u32) & TC_H_MAJ_MASK | (min as u32)
            & TC_H_MIN_MASK;
        req
    }

    /// Set parent to root. The parent must still be unspecified.
    pub fn root(self) -> (r: Self)
        requires
            self@.message.header.parent == TC_H_UNSPEC,
        ensures
            r@.message.header == (TcHeader { parent: TC_H_ROOT, ..self@.message.header }),
            r@.message.nlas == self@.message.nlas,
            r@.flags == self@.flags,
    {
        proof {
            use_type_invariant(&self);
        }
        let mut req = self;
        req.message.header.parent = TC_H_ROOT;
        req
    }

    /// Set parent. The parent must still be unspecified.
    pub fn parent(self, parent: u32) -> (r: Self)
        requires
            self@.message.header.parent == TC_H_UNSPEC,
        ensures
            r@.message.header == (TcHeader { parent, ..self@.message.header }),
            r@.message.nlas == self@.message.nlas,
            r@.flags == self@.flags,
    {
        proof {
            use_type_invariant(&self);
        }
        let mut req = self;
        req.message.header.parent = parent;
        req
    }

    /// New an ingress qdisc: parent ingress, handle `ffff:0`, kind
    /// `"ingress"`. The parent must still be unspecified.
    pub fn ingress(self) -> (r: Self)
        requires
            self@.message.header.parent == TC_H_UNSPEC,
        ensures
            r@.message.header == (TcHeader {
                parent: TC_H_INGRESS,
                handle: INGRESS_HANDLE,
                ..self@.message.header
            }),
            r@.message.nlas == self@.message.nlas.push(TcNlaModel::Kind("ingress"@)),
            r@.flags == self@.flags,
    {
        proof {
            use_type_invariant(&self);
        }
        let QDiscNewRequest { mut message, flags } = self;
        message.header.parent = TC_H_INGRESS;
        message.header.handle = INGRESS_HANDLE;
        let kind = "ingress".to_string();
        proof {
            broadcast use vstd::string::to_string_from_display_ensures_for_str;
        }
        message.push_nla(TcNla::Kind(kind));
        QDiscNewRequest { message, flags }
    }

    /// Create a new netem qdisc: parent root, kind `"netem"`, and the options
    /// of `opts`. The parent must still be unspecified and every percentage
    /// that `opts` carries must lie in `0..=100`; then it always succeeds.
    pub fn netem(self, opts: NetemQdisc) -> (r: Result<Self, DecodeError>)
        requires
            self@.message.header.parent == TC_H_UNSPEC,
            netem_percentages_valid(opts),
        ensures
            r matches Ok(req) && req@ == (RequestModel {
                message: TcMessageModel {
                    header: TcHeader { parent: TC_H_ROOT, ..self@.message.header },
                    nlas: self@.message.nlas.push(TcNlaModel::Kind("netem"@)).push(
                        TcNlaModel::Options(as_opts(netem_options(opts))),
                    ),
                },
                flags: self@.flags,
            }),
    {
        proof {
            use_type_invariant(&self);
        }
        let mut nlas: Vec<TcOpt> = Vec::new();
        let QDiscNewRequest { mut message, flags } = self;
        message.header.parent = TC_H_ROOT;
        let kind = "netem".to_string();
        proof {
            broadcast use vstd::string::to_string_from_display_ensures_for_str;
        }
        message.push_nla(TcNla::Kind(kind));

        let qopt = match qopt_attribute(&opts.config) {
            Ok(nla) => nla,
            Err(e) => {
                return Err(e);
            },
        };
        nlas.push(TcOpt::Other(qopt));
        let ghost expected = seq![NlaModel { kind: TCA_OPTIONS, value: qopt_value(opts.config) }];
        assert(opts_view(nlas@) =~= as_opts(expected));

        if let Some(correlations) = opts.correlations {
            let nla = match correlations_attribute(&correlations) {
                Ok(nla) => nla,
                Err(e) => {
                    return Err(e);
                },
            };
            nlas.push(TcOpt::Other(nla));
        }
        proof {
            expected = expected + correlations_nlas(opts);
        }
        assert(opts_view(nlas@) =~= as_opts(expected));

        if let Some(reorder) = opts.reorder {
            let nla = match reorder_attribute(&reorder) {
                Ok(nla) => nla,
                Err(e) => {
                    return Err(e);
                },
            };
            nlas.push(TcOpt::Other(nla));
        }
        proof {
            expected = expected + reorder_nlas(opts);
        }
        assert(opts_view(nlas@) =~= as_opts(expected));

        if let Some(corrupt) = opts.corruption {
            let nla = match corrupt_attribute(&corrupt) {
                Ok(nla) => nla,
                Err(e) => {
                    return Err(e);
                },
            };
            nlas.push(TcOpt::Other(nla));
        }
        proof {
            expected = expected + corrupt_nlas(opts);
        }
        assert(opts_view(nlas@) =~= as_opts(expected));

        proof {
            lemma_netem_kinds_unmasked();
        }
        if let Some(delay) = opts.delay {
            let latency = match time64_attribute(TCA_NETEM_LATENCY64, delay.delay) {
                Ok(nla) => nla,
                Err(e) => {
                    return Err(e);
                },
            };
            nlas.push(TcOpt::Other(latency));
            let jitter = match time64_attribute(TCA_NETEM_JITTER64, delay.stddev) {
                Ok(nla) => nla,
                Err(e) => {
                    return Err(e);
                },
            };
            nlas.push(TcOpt::Other(jitter));
        }
        proof {
            expected = expected + delay_nlas(opts);
        }
        assert(opts_view(nlas@) =~= as_opts(expected));
        assert(expected =~= netem_options(opts));

        message.push_nla(TcNla::Options(nlas));
        Ok(QDiscNewRequest { message, flags })
    }
}


/// The handle built from a major and a minor number gives both back: the
/// major number in its upper half, the minor number in its lower half.
pub proof fn lemma_handle_halves(maj: u16, min: u16)
    ensures
        handle_of(maj, min) >> 16u32 == maj as u32,
        handle_of(maj, min) & 0xFFFFu32 == min as u32,
{
    let a = maj as u32;
    let b = min as u32;
    assert(a <= 0xFFFF && b <= 0xFFFF ==> ((((a << 16u32) & 0xFFFF_0000u32) | (b
        & 0x0000_FFFFu32)) >> 16u32) == a) by (bit_vector);
    assert(a <= 0xFFFF && b <= 0xFFFF ==> ((((a << 16u32) & 0xFFFF_0000u32) | (b
        & 0x0000_FFFFu32)) & 0xFFFFu32) == b) by (bit_vector);
}

/// Each way of setting the parent (`root`, `ingress`, `netem`) leaves it
/// specified, so none of them, nor `parent`, is accepted a second time.
pub proof fn lemma_parent_set_once(r: QDiscNewRequest)
    requires
        r@.message.header.parent == TC_H_ROOT || r@.message.header.parent == TC_H_INGRESS,
    ensures
        r@.message.header.parent != TC_H_UNSPEC,
{
}

} // verus!
