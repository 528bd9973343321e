//! A traffic-control message (`struct tcmsg` and its attributes), held as the
//! plain values that the request builder reads and writes.
use crate::nla::{DefaultNla, NlaModel};
use vstd::prelude::*;

verus! {

/// The fixed header of a traffic-control message.
#[derive(Debug, Clone, Copy, PartialEq, Eq)]
pub struct TcHeader {
    pub family: u8,
    /// Interface index.
    pub index: i32,
    /// Queueing-discipline handle.
    pub handle: u32,
    /// Parent queueing discipline.
    pub parent: u32,
    pub info: u32,
}

/// An option attribute of a queueing discipline.
#[derive(Debug, Clone, PartialEq, Eq)]
pub enum TcOpt {
    /// An option whose layout is carried as raw bytes.
    Other(DefaultNla),
}

/// An attribute of a traffic-control message.
#[derive(Debug, Clone, PartialEq, Eq)]
pub enum TcNla {
    /// Name of the queueing discipline.
    Kind(String),
    /// Options that follow.
    Options(Vec<TcOpt>),
}

/// A traffic-control message: header and attributes, in order.
#[derive(Debug, Clone, PartialEq, Eq)]
pub struct TcMessage {
    pub header: TcHeader,
    pub nlas: Vec<TcNla>,
}

/// An option attribute as mathematical values.
pub enum TcOptModel {
    Other(NlaModel),
}

/// A message attribute as mathematical values.
pub enum TcNlaModel {
    Kind(Seq<char>),
    Options(Seq<TcOptModel>),
}

/// A traffic-control message as mathematical values.
pub struct TcMessageModel {
    pub header: TcHeader,
    pub nlas: Seq<TcNlaModel>,
}

impl View for TcOpt {
    type V = TcOptModel;

    open spec fn view(&self) -> TcOptModel {
        match self {
            TcOpt::Other(nla) => TcOptModel::Other(nla@),
        }
    }
}

/// The mathematical values of a sequence of options.
pub open spec fn opts_view(opts: Seq<TcOpt>) -> Seq<TcOptModel> {
    opts.map_values(|o: TcOpt| o@)
}

impl View for TcNla {
    type V = TcNlaModel;

    open spec fn view(&self) -> TcNlaModel {
        match self {
            TcNla::Kind(s) => TcNlaModel::Kind(s@),
            TcNla::Options(v) => TcNlaModel::Options(opts_view(v@)),
        }
    }
}

/// The mathematical values of a sequence of attributes.
pub open spec fn nlas_view(nlas: Seq<TcNla>) -> Seq<TcNlaModel> {
    nlas.map_values(|n: TcNla| n@)
}

impl View for TcMessage {
    type V = TcMessageModel;

    open spec fn view(&self) -> TcMessageModel {
        TcMessageModel { header: self.header, nlas: nlas_view(self.nlas@) }
    }
}

impl TcMessage {
    /// A message for the interface `index`: every other header field zero,
    /// no attributes.
    pub fn with_index(index: i32) -> (m: TcMessage)
        ensures
            m@.header == (TcHeader { family: 0, index, handle: 0, parent: 0, info: 0 }),
            m@.nlas == Seq::<TcNlaModel>::empty(),
    {
        let m = TcMessage {
            header: TcHeader { family: 0, index, handle: 0, parent: 0, info: 0 },
            nlas: Vec::new(),
        };
        assert(m@.nlas =~= Seq::<TcNlaModel>::empty());
        m
    }

    /// Appends the attribute `nla`.
    pub fn push_nla(&mut self, nla: TcNla)
        ensures
            final(self)@.header == old(self)@.header,
            final(self)@.nlas == old(self)@.nlas.push(nla@),
    {
        self.nlas.push(nla);
        assert(nlas_view(self.nlas@) =~= nlas_view(old(self).nlas@).push(nla@));
    }
}

} // verus!
