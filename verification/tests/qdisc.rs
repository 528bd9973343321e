use qdisc_netem::constants::{INGRESS_HANDLE, NLM_F_REQUEST, TC_H_INGRESS, TC_H_ROOT, TC_H_UNSPEC};
use qdisc_netem::message::{TcHeader, TcMessage, TcNla, TcOpt};
use qdisc_netem::netem::{
    netem_percentages_ok, percent_to_buffer, NetemQdisc, TcNetemCorrelations, TcNetemCorrupt, TcNetemDelay, TcNetemQopt,
    TcNetemReorder,
};
use qdisc_netem::nla::DefaultNla;
use qdisc_netem::request::QDiscNewRequest;

fn fresh(index: i32) -> QDiscNewRequest {
    QDiscNewRequest::new(TcMessage::with_index(index), 0)
}

fn opts_of(req: &QDiscNewRequest) -> Vec<DefaultNla> {
    match &req.message().nlas[1] {
        TcNla::Options(opts) => opts
            .iter()
            .map(|o| match o {
                TcOpt::Other(nla) => nla.clone(),
            })
            .collect(),
        other => panic!("expected options, got {:?}", other),
    }
}

fn ne32(v: u32) -> Vec<u8> {
    v.to_ne_bytes().to_vec()
}

#[test]
fn test_new_qdisc_ingress() {
    let req = fresh(7).ingress();
    let msg = req.message();
    assert_eq!(msg.header.index, 7);
    assert_eq!(msg.header.family, 0);
    assert_eq!(msg.header.handle, 0xffff0000);
    assert_eq!(msg.header.parent, TC_H_INGRESS);
    assert_eq!(msg.nlas[0], TcNla::Kind("ingress".to_string()));
    assert_eq!(msg.nlas.len(), 1);
}

#[test]
fn test_new_qdisc_netem() {
    let opts = NetemQdisc::default();
    let req = fresh(7).netem(opts).unwrap();
    let msg = req.message();
    assert_eq!(msg.header.index, 7);
    assert_eq!(msg.header.parent, TC_H_ROOT);
    assert_eq!(msg.nlas.len(), 2);
    assert_eq!(msg.nlas[0], TcNla::Kind("netem".to_string()));
    let kinds: Vec<u16> = opts_of(&req).iter().map(|n| n.kind).collect();
    assert_eq!(kinds, vec![2, 1, 3, 4, 10, 11]);
}

#[test]
fn percent_to_buffer_scale() {
    assert_eq!(percent_to_buffer(0), 0);
    assert_eq!(percent_to_buffer(1), 42949672);
    assert_eq!(percent_to_buffer(50), 2147483600);
    assert_eq!(percent_to_buffer(100), 4294967200);
}

#[test]
fn percent_to_buffer_is_monotonic() {
    let mut last = 0;
    for p in 0..=100 {
        let v = percent_to_buffer(p);
        assert!(v >= last);
        last = v;
    }
}

#[test]
fn new_sets_request_flag() {
    let req = QDiscNewRequest::new(TcMessage::with_index(1), 0x400);
    assert_eq!(req.flags(), 0x401);
    assert_eq!(req.flags() & NLM_F_REQUEST, NLM_F_REQUEST);
    let req = QDiscNewRequest::new(TcMessage::with_index(1), 1);
    assert_eq!(req.flags(), 1);
}

#[test]
fn with_index_is_blank() {
    let m = TcMessage::with_index(-3);
    assert_eq!(m.header, TcHeader { family: 0, index: -3, handle: 0, parent: 0, info: 0 });
    assert!(m.nlas.is_empty());
}

#[test]
fn handle_combines_major_and_minor() {
    let req = fresh(2).handle(1, 2);
    assert_eq!(req.message().header.handle, 0x0001_0002);
    assert_eq!(req.message().header.handle >> 16, 1);
    assert_eq!(req.message().header.handle & 0xffff, 2);
    let req = fresh(2).handle(0xffff, 0xffff);
    assert_eq!(req.message().header.handle, 0xffff_ffff);
    assert_eq!(req.message().header.parent, TC_H_UNSPEC);
    assert!(req.message().nlas.is_empty());
}

#[test]
fn root_and_parent_set_only_the_parent() {
    let req = fresh(4).handle(3, 0).root();
    assert_eq!(req.message().header.parent, TC_H_ROOT);
    assert_eq!(req.message().header.handle, 0x0003_0000);
    assert!(req.message().nlas.is_empty());
    let req = fresh(4).parent(0x0001_0001);
    assert_eq!(req.message().header.parent, 0x0001_0001);
    assert_eq!(req.message().header.handle, 0);
    assert_eq!(req.flags(), NLM_F_REQUEST);
}

#[test]
fn ingress_overrides_handle() {
    let req = fresh(4).handle(5, 6).ingress();
    assert_eq!(req.message().header.handle, INGRESS_HANDLE);
}

#[test]
fn netem_defaults() {
    let d = NetemQdisc::default();
    assert_eq!(d.config.limit, 10240);
    assert_eq!(d.config.loss, 0);
    assert_eq!(d.config.gap, 0);
    assert_eq!(d.config.duplicate, 0);
    assert!(d.delay.is_some() && d.correlations.is_some());
    assert!(d.corruption.is_some() && d.reorder.is_some());
}

#[test]
fn netem_encodes_each_setting() {
    let opts = NetemQdisc {
        config: TcNetemQopt { limit: 1000, loss: 50, gap: 3, duplicate: 1 },
        delay: Some(TcNetemDelay { delay: 100_000, stddev: 7 }),
        correlations: Some(TcNetemCorrelations { delay_corr: 10, loss_corr: 20, dup_corr: 30 }),
        corruption: Some(TcNetemCorrupt { prob: 5, corr: 6 }),
        reorder: Some(TcNetemReorder { prob: 100, corr: 2 }),
    };
    let req = fresh(9).netem(opts).unwrap();
    let nlas = opts_of(&req);
    assert_eq!(nlas.len(), 6);

    let mut qopt = Vec::new();
    for v in [1000, 2147483600, 3, 42949672, 0] {
        qopt.extend(ne32(v));
    }
    assert_eq!(nlas[0], DefaultNla { kind: 2, value: qopt });

    let mut corr = Vec::new();
    for v in [10 * 42949672u32, 20 * 42949672, 30 * 42949672] {
        corr.extend(ne32(v));
    }
    assert_eq!(nlas[1], DefaultNla { kind: 1, value: corr });

    let mut reorder = ne32(4294967200);
    reorder.extend(ne32(2 * 42949672));
    reorder.extend([0, 0, 0, 0]);
    assert_eq!(nlas[2], DefaultNla { kind: 3, value: reorder });

    let mut corrupt = ne32(5 * 42949672);
    corrupt.extend(ne32(6 * 42949672));
    corrupt.extend([0, 0, 0, 0]);
    assert_eq!(nlas[3], DefaultNla { kind: 4, value: corrupt });

    let mut latency = 100_000u64.to_ne_bytes().to_vec();
    latency.extend([0, 0, 0, 0]);
    assert_eq!(nlas[4], DefaultNla { kind: 10, value: latency });
    let mut jitter = 7u64.to_ne_bytes().to_vec();
    jitter.extend([0, 0, 0, 0]);
    assert_eq!(nlas[5], DefaultNla { kind: 11, value: jitter });
}

#[test]
fn netem_without_optional_settings() {
    let opts = NetemQdisc {
        config: TcNetemQopt { limit: 5, loss: 0, gap: 0, duplicate: 0 },
        delay: None,
        correlations: None,
        corruption: None,
        reorder: Some(TcNetemReorder { prob: 1, corr: 0 }),
    };
    let req = fresh(9).handle(1, 0).netem(opts).unwrap();
    assert_eq!(req.message().header.handle, 0x0001_0000);
    let nlas = opts_of(&req);
    assert_eq!(nlas.len(), 2);
    assert_eq!(nlas[0].kind, 2);
    assert_eq!(nlas[0].value.len(), 20);
    assert_eq!(nlas[0].value[0..4], ne32(5)[..]);
    assert_eq!(nlas[1].kind, 3);
    assert_eq!(nlas[1].value[0..4], ne32(42949672)[..]);
}

#[test]
fn netem_keeps_earlier_attributes_and_flags() {
    let req = QDiscNewRequest::new(TcMessage::with_index(1), 0x600).netem(NetemQdisc::default()).unwrap();
    assert_eq!(req.flags(), 0x601);
    let (msg, flags) = req.into_parts();
    assert_eq!(flags, 0x601);
    assert_eq!(msg.nlas.len(), 2);
}

#[test]
fn percentage_check_matches_the_netem_bound() {
    let mut opts = NetemQdisc::default();
    assert!(netem_percentages_ok(&opts));
    opts.config.loss = 101;
    assert!(!netem_percentages_ok(&opts));
    opts.config.loss = 100;
    opts.reorder = Some(TcNetemReorder { prob: 0, corr: 200 });
    assert!(!netem_percentages_ok(&opts));
    opts.reorder = None;
    opts.corruption = Some(TcNetemCorrupt { prob: 101, corr: 0 });
    assert!(!netem_percentages_ok(&opts));
    opts.corruption = None;
    opts.correlations = Some(TcNetemCorrelations { delay_corr: 0, loss_corr: 0, dup_corr: 101 });
    assert!(!netem_percentages_ok(&opts));
    opts.correlations = None;
    assert!(netem_percentages_ok(&opts));
}
