//! Reading back what was written: every well-formed command, and every
//! well-formed frame, is read back as it was from its own bytes.
use vstd::prelude::*;

use crate::bytes::{
    lemma_le_len, lemma_u16_read_back, lemma_u64_read_back, spec_u16_at, spec_u64_at, spec_u8_at, u16_le,
    u64_le, ParseError,
};
use crate::common::{ExtendedAddress, NwkAddress, PanId};
use crate::mac::lemma_mac_capabilities_roundtrip;
use crate::nwk::commands::{
    spec_parse_network_update, spec_parse_rejoin_response, spec_parse_route_reply, spec_parse_route_request,
    NetworkUpdate, RejoinResponse, RouteReply, RouteRequest, UpdateInformation,
    spec_parse_command, spec_parse_payload, CommandView, LinkPowerDeltaOptions,
    addrs_bytes, delta_entries_bytes, opt_u64_bytes, spec_opt_u64, spec_addr_at, spec_delta_entry_at, spec_link_entry_at, spec_pan_at, link_entries_bytes, pans_bytes, DeltaEntry, DeviceTimeout, Leave, LinkStatus, LinkStatusEntry, LinkStatusOptions, NetworkReportOptions, NetworkStatusCode,
    ParentInformation, RouteReplyOptions, RouteRequestOptions,
};

verus! {

proof fn lemma_route_request_options(o: RouteRequestOptions)
    ensures
        RouteRequestOptions::spec_from_u8(o.spec_to_u8()) == Ok::<RouteRequestOptions, ParseError>(o),
{
}

proof fn lemma_route_reply_options(o: RouteReplyOptions)
    ensures
        RouteReplyOptions::spec_from_u8(o.spec_to_u8()) == o,
{
}

proof fn lemma_link_status_options(o: LinkStatusOptions)
    requires
        o.entry_count < 32,
    ensures
        LinkStatusOptions::spec_from_u8(o.spec_to_u8()) == o,
{
}

proof fn lemma_report_options(o: NetworkReportOptions)
    requires
        o.count < 32,
    ensures
        NetworkReportOptions::spec_from_u8(o.spec_to_u8()) == Ok::<NetworkReportOptions, ParseError>(o),
{
}

proof fn lemma_leave(c: Leave)
    ensures
        Leave::spec_from_u8(c.spec_to_u8()) == c,
{
}

proof fn lemma_link_status(c: LinkStatus)
    ensures
        LinkStatus::spec_from_u8(c.spec_to_u8()) == c,
{
}

proof fn lemma_parent_information(c: ParentInformation)
    ensures
        ParentInformation::spec_from_u8(c.spec_to_u8()) == c,
{
}

proof fn lemma_status_code(c: NetworkStatusCode)
    ensures
        NetworkStatusCode::spec_from_code(c.spec_code()) == Some(c),
{
}

proof fn lemma_device_timeout(c: DeviceTimeout)
    ensures
        DeviceTimeout::spec_from_code(c.spec_code()) == Some(c),
{
}

proof fn lemma_addrs_bytes(l: Seq<NwkAddress>)
    ensures
        addrs_bytes(l).len() == 2 * l.len(),
        forall|k: int|
            0 <= k < l.len() ==> #[trigger] addrs_bytes(l).subrange(2 * k, 2 * k + 2) == u16_le(l[k].0),
    decreases l.len(),
{
    if l.len() > 0 {
        let init = l.drop_last();
        lemma_addrs_bytes(init);
        lemma_le_len(l.last().0 as nat, 2);
        let b = addrs_bytes(l);
        assert forall|k: int| 0 <= k < l.len() implies #[trigger] b.subrange(2 * k, 2 * k + 2) == u16_le(
            l[k].0,
        ) by {
            if k < init.len() {
                assert(b.subrange(2 * k, 2 * k + 2) =~= addrs_bytes(init).subrange(2 * k, 2 * k + 2));
            } else {
                assert(b.subrange(2 * k, 2 * k + 2) =~= u16_le(l.last().0));
            }
        }
    }
}

proof fn lemma_pans_bytes(l: Seq<PanId>)
    ensures
        pans_bytes(l).len() == 2 * l.len(),
        forall|k: int|
            0 <= k < l.len() ==> #[trigger] pans_bytes(l).subrange(2 * k, 2 * k + 2) == u16_le(l[k].0),
    decreases l.len(),
{
    if l.len() > 0 {
        let init = l.drop_last();
        lemma_pans_bytes(init);
        lemma_le_len(l.last().0 as nat, 2);
        let b = pans_bytes(l);
        assert forall|k: int| 0 <= k < l.len() implies #[trigger] b.subrange(2 * k, 2 * k + 2) == u16_le(
            l[k].0,
        ) by {
            if k < init.len() {
                assert(b.subrange(2 * k, 2 * k + 2) =~= pans_bytes(init).subrange(2 * k, 2 * k + 2));
            } else {
                assert(b.subrange(2 * k, 2 * k + 2) =~= u16_le(l.last().0));
            }
        }
    }
}

proof fn lemma_link_entries_bytes(l: Seq<LinkStatusEntry>)
    ensures
        link_entries_bytes(l).len() == 3 * l.len(),
        forall|k: int|
            0 <= k < l.len() ==> #[trigger] link_entries_bytes(l).subrange(3 * k, 3 * k + 3) == u16_le(
                l[k].neighbor_address.0,
            ) + seq![l[k].link_status.spec_to_u8()],
    decreases l.len(),
{
    if l.len() > 0 {
        let init = l.drop_last();
        lemma_link_entries_bytes(init);
        lemma_le_len(l.last().neighbor_address.0 as nat, 2);
        let b = link_entries_bytes(l);
        assert forall|k: int| 0 <= k < l.len() implies #[trigger] b.subrange(3 * k, 3 * k + 3) == u16_le(
            l[k].neighbor_address.0,
        ) + seq![l[k].link_status.spec_to_u8()] by {
            if k < init.len() {
                assert(b.subrange(3 * k, 3 * k + 3) =~= link_entries_bytes(init).subrange(3 * k, 3 * k + 3));
            } else {
                assert(b.subrange(3 * k, 3 * k + 3) =~= u16_le(l.last().neighbor_address.0) + seq![
                    l.last().link_status.spec_to_u8(),
                ]);
            }
        }
    }
}

proof fn lemma_delta_entries_bytes(l: Seq<DeltaEntry>)
    ensures
        delta_entries_bytes(l).len() == 3 * l.len(),
        forall|k: int|
            0 <= k < l.len() ==> #[trigger] delta_entries_bytes(l).subrange(3 * k, 3 * k + 3) == u16_le(
                l[k].device_address.0,
            ) + seq![l[k].delta],
    decreases l.len(),
{
    if l.len() > 0 {
        let init = l.drop_last();
        lemma_delta_entries_bytes(init);
        lemma_le_len(l.last().device_address.0 as nat, 2);
        let b = delta_entries_bytes(l);
        assert forall|k: int| 0 <= k < l.len() implies #[trigger] b.subrange(3 * k, 3 * k + 3) == u16_le(
            l[k].device_address.0,
        ) + seq![l[k].delta] by {
            if k < init.len() {
                assert(b.subrange(3 * k, 3 * k + 3) =~= delta_entries_bytes(init).subrange(3 * k, 3 * k + 3));
            } else {
                assert(b.subrange(3 * k, 3 * k + 3) =~= u16_le(l.last().device_address.0) + seq![l.last().delta]);
            }
        }
    }
}

proof fn lemma_addrs_read(s: Seq<u8>, off: int, l: Seq<NwkAddress>)
    requires
        0 <= off,
        off + 2 * l.len() <= s.len(),
        s.subrange(off, off + 2 * l.len()) == addrs_bytes(l),
    ensures
        Seq::new(l.len(), |i: int| spec_addr_at(s, off + 2 * i)) == l,
{
    lemma_addrs_bytes(l);
    let got = Seq::new(l.len(), |i: int| spec_addr_at(s, off + 2 * i));
    assert forall|k: int| 0 <= k < l.len() implies got[k] == l[k] by {
        assert(s.subrange(off + 2 * k, off + 2 * k + 2) =~= addrs_bytes(l).subrange(2 * k, 2 * k + 2));
        lemma_u16_read_back(s, off + 2 * k, l[k].0);
    }
    assert(got =~= l);
}

proof fn lemma_pans_read(s: Seq<u8>, off: int, l: Seq<PanId>)
    requires
        0 <= off,
        off + 2 * l.len() <= s.len(),
        s.subrange(off, off + 2 * l.len()) == pans_bytes(l),
    ensures
        Seq::new(l.len(), |i: int| spec_pan_at(s, off + 2 * i)) == l,
{
    lemma_pans_bytes(l);
    let got = Seq::new(l.len(), |i: int| spec_pan_at(s, off + 2 * i));
    assert forall|k: int| 0 <= k < l.len() implies got[k] == l[k] by {
        assert(s.subrange(off + 2 * k, off + 2 * k + 2) =~= pans_bytes(l).subrange(2 * k, 2 * k + 2));
        lemma_u16_read_back(s, off + 2 * k, l[k].0);
    }
    assert(got =~= l);
}

proof fn lemma_link_entries_read(s: Seq<u8>, off: int, l: Seq<LinkStatusEntry>)
    requires
        0 <= off,
        off + 3 * l.len() <= s.len(),
        s.subrange(off, off + 3 * l.len()) == link_entries_bytes(l),
    ensures
        Seq::new(l.len(), |i: int| spec_link_entry_at(s, off + 3 * i)) == l,
{
    lemma_link_entries_bytes(l);
    let got = Seq::new(l.len(), |i: int| spec_link_entry_at(s, off + 3 * i));
    assert forall|k: int| 0 <= k < l.len() implies got[k] == l[k] by {
        let e = u16_le(l[k].neighbor_address.0) + seq![l[k].link_status.spec_to_u8()];
        lemma_le_len(l[k].neighbor_address.0 as nat, 2);
        assert(s.subrange(off + 3 * k, off + 3 * k + 3) =~= link_entries_bytes(l).subrange(3 * k, 3 * k + 3));
        assert(s.subrange(off + 3 * k, off + 3 * k + 2) =~= e.subrange(0, 2));
        assert(e.subrange(0, 2) =~= u16_le(l[k].neighbor_address.0));
        lemma_u16_read_back(s, off + 3 * k, l[k].neighbor_address.0);
        assert(s[off + 3 * k + 2] == e[2]);
        lemma_link_status(l[k].link_status);
    }
    assert(got =~= l);
}

proof fn lemma_delta_entries_read(s: Seq<u8>, off: int, l: Seq<DeltaEntry>)
    requires
        0 <= off,
        off + 3 * l.len() <= s.len(),
        s.subrange(off, off + 3 * l.len()) == delta_entries_bytes(l),
    ensures
        Seq::new(l.len(), |i: int| spec_delta_entry_at(s, off + 3 * i)) == l,
{
    lemma_delta_entries_bytes(l);
    let got = Seq::new(l.len(), |i: int| spec_delta_entry_at(s, off + 3 * i));
    assert forall|k: int| 0 <= k < l.len() implies got[k] == l[k] by {
        let e = u16_le(l[k].device_address.0) + seq![l[k].delta];
        lemma_le_len(l[k].device_address.0 as nat, 2);
        assert(s.subrange(off + 3 * k, off + 3 * k + 3) =~= delta_entries_bytes(l).subrange(3 * k, 3 * k + 3));
        assert(s.subrange(off + 3 * k, off + 3 * k + 2) =~= e.subrange(0, 2));
        assert(e.subrange(0, 2) =~= u16_le(l[k].device_address.0));
        lemma_u16_read_back(s, off + 3 * k, l[k].device_address.0);
        assert(s[off + 3 * k + 2] == e[2]);
    }
    assert(got =~= l);
}

/// The byte at `i` of `p`, where `p` stands at `off`.
proof fn lemma_u8_within(s: Seq<u8>, off: int, p: Seq<u8>, i: int)
    requires
        0 <= off,
        0 <= i < p.len(),
        off + p.len() <= s.len(),
        s.subrange(off, off + p.len()) == p,
    ensures
        spec_u8_at(s, off + i) == Ok::<u8, ParseError>(p[i]),
{
    assert(s[off + i] == s.subrange(off, off + p.len())[i]);
}

proof fn lemma_u16_within(s: Seq<u8>, off: int, p: Seq<u8>, i: int, v: u16)
    requires
        0 <= off,
        0 <= i,
        i + 2 <= p.len(),
        off + p.len() <= s.len(),
        s.subrange(off, off + p.len()) == p,
        p.subrange(i, i + 2) == u16_le(v),
    ensures
        spec_u16_at(s, off + i) == Ok::<u16, ParseError>(v),
{
    assert(s.subrange(off + i, off + i + 2) =~= p.subrange(i, i + 2));
    lemma_u16_read_back(s, off + i, v);
}

proof fn lemma_u64_within(s: Seq<u8>, off: int, p: Seq<u8>, i: int, v: u64)
    requires
        0 <= off,
        0 <= i,
        i + 8 <= p.len(),
        off + p.len() <= s.len(),
        s.subrange(off, off + p.len()) == p,
        p.subrange(i, i + 8) == u64_le(v),
    ensures
        spec_u64_at(s, off + i) == Ok::<u64, ParseError>(v),
{
    assert(s.subrange(off + i, off + i + 8) =~= p.subrange(i, i + 8));
    lemma_u64_read_back(s, off + i, v);
}

/// An optional IEEE address whose presence is announced is read back.
proof fn lemma_opt_u64_within(s: Seq<u8>, off: int, p: Seq<u8>, i: int, a: Option<ExtendedAddress>)
    requires
        0 <= off,
        0 <= i,
        i + opt_u64_bytes(a).len() <= p.len(),
        off + p.len() <= s.len(),
        s.subrange(off, off + p.len()) == p,
        p.subrange(i, i + opt_u64_bytes(a).len()) == opt_u64_bytes(a),
    ensures
        spec_opt_u64(s, off + i, a is Some) == Ok::<(Option<ExtendedAddress>, int), ParseError>(
            (a, off + i + opt_u64_bytes(a).len()),
        ),
{
    if let Some(x) = a {
        lemma_le_len(x.0 as nat, 8);
        lemma_u64_within(s, off, p, i, x.0);
    }
}

proof fn lemma_route_request_read(s: Seq<u8>, off: int, c: RouteRequest)
    requires
        0 <= off,
        off + c.spec_bytes().len() <= s.len(),
        s.subrange(off, off + c.spec_bytes().len()) == c.spec_bytes(),
        c.destination_ieee_address is Some == c.command_options.destination_ieee,
    ensures
        spec_parse_route_request(s, off) == Ok::<(RouteRequest, int), ParseError>(
            (c, off + c.spec_bytes().len()),
        ),
{
    let p = c.spec_bytes();
    let e = opt_u64_bytes(c.destination_ieee_address);
    lemma_le_len(c.dst_addr.0 as nat, 2);
    assert(p.len() == 5 + e.len());
    lemma_route_request_options(c.command_options);
    lemma_u8_within(s, off, p, 0);
    lemma_u8_within(s, off, p, 1);
    assert(p.subrange(2, 4) =~= u16_le(c.dst_addr.0));
    lemma_u16_within(s, off, p, 2, c.dst_addr.0);
    lemma_u8_within(s, off, p, 4);
    assert(p.subrange(5, 5 + e.len() as int) =~= e);
    lemma_opt_u64_within(s, off, p, 5, c.destination_ieee_address);
}

proof fn lemma_route_reply_read(s: Seq<u8>, off: int, c: RouteReply)
    requires
        0 <= off,
        off + c.spec_bytes().len() <= s.len(),
        s.subrange(off, off + c.spec_bytes().len()) == c.spec_bytes(),
        c.originator_ieee_address is Some == c.command_options.originator_ieee,
        c.responder_ieee_address is Some == c.command_options.responder_ieee,
    ensures
        spec_parse_route_reply(s, off) == Ok::<(RouteReply, int), ParseError>(
            (c, off + c.spec_bytes().len()),
        ),
{
    let p = c.spec_bytes();
    let e1 = opt_u64_bytes(c.originator_ieee_address);
    let e2 = opt_u64_bytes(c.responder_ieee_address);
    lemma_le_len(c.originator_address.0 as nat, 2);
    lemma_le_len(c.responder_address.0 as nat, 2);
    assert(p.len() == 7 + e1.len() + e2.len());
    lemma_route_reply_options(c.command_options);
    lemma_u8_within(s, off, p, 0);
    lemma_u8_within(s, off, p, 1);
    assert(p.subrange(2, 4) =~= u16_le(c.originator_address.0));
    lemma_u16_within(s, off, p, 2, c.originator_address.0);
    assert(p.subrange(4, 6) =~= u16_le(c.responder_address.0));
    lemma_u16_within(s, off, p, 4, c.responder_address.0);
    lemma_u8_within(s, off, p, 6);
    assert(p.subrange(7, 7 + e1.len() as int) =~= e1);
    lemma_opt_u64_within(s, off, p, 7, c.originator_ieee_address);
    let o1: int = 7 + e1.len() as int;
    assert(p.subrange(o1, o1 + e2.len()) =~= e2);
    lemma_opt_u64_within(s, off, p, o1, c.responder_ieee_address);
}

proof fn lemma_rejoin_response_read(s: Seq<u8>, off: int, c: RejoinResponse)
    requires
        0 <= off,
        off + c.spec_bytes().len() <= s.len(),
        s.subrange(off, off + c.spec_bytes().len()) == c.spec_bytes(),
    ensures
        spec_parse_rejoin_response(s, off) == Ok::<(RejoinResponse, int), ParseError>(
            (c, off + c.spec_bytes().len()),
        ),
{
    let p = c.spec_bytes();
    let a: u16 = match c {
        RejoinResponse::Success(a) => a.0,
        _ => 0xffff,
    };
    lemma_le_len(a as nat, 2);
    assert(p.subrange(0, 2) =~= u16_le(a));
    lemma_u16_within(s, off, p, 0, a);
    lemma_u8_within(s, off, p, 2);
}

proof fn lemma_network_update_read(s: Seq<u8>, off: int, c: NetworkUpdate)
    requires
        0 <= off,
        off + c.spec_bytes().len() <= s.len(),
        s.subrange(off, off + c.spec_bytes().len()) == c.spec_bytes(),
        c.options.count < 32,
    ensures
        spec_parse_network_update(s, off) == Ok::<(NetworkUpdate, int), ParseError>(
            (c, off + c.spec_bytes().len()),
        ),
{
    let p = c.spec_bytes();
    let pan = match c.update_information {
        UpdateInformation::PanIdentifierUpdate(pan) => pan,
    };
    lemma_le_len(c.ext_pan_id.0 as nat, 8);
    lemma_le_len(pan.0 as nat, 2);
    lemma_report_options(c.options);
    lemma_u8_within(s, off, p, 0);
    assert(p.subrange(1, 9) =~= u64_le(c.ext_pan_id.0));
    lemma_u64_within(s, off, p, 1, c.ext_pan_id.0);
    lemma_u8_within(s, off, p, 9);
    assert(p.subrange(10, 12) =~= u16_le(pan.0));
    lemma_u16_within(s, off, p, 10, pan.0);
}

proof fn lemma_route_record_read(s: Seq<u8>, off: int, l: Seq<NwkAddress>)
    requires
        0 <= off,
        l.len() <= 32,
        off + CommandView::RouteRecord(l).spec_payload().len() <= s.len(),
        s.subrange(off, off + CommandView::RouteRecord(l).spec_payload().len())
            == CommandView::RouteRecord(l).spec_payload(),
    ensures
        spec_parse_payload(s, 0x05, off) == Ok::<(CommandView, int), ParseError>(
            (CommandView::RouteRecord(l), off + CommandView::RouteRecord(l).spec_payload().len()),
        ),
{
    let p = CommandView::RouteRecord(l).spec_payload();
    let b = addrs_bytes(l);
    lemma_addrs_bytes(l);
    lemma_u8_within(s, off, p, 0);
    assert(s.subrange(off + 1, off + 1 + b.len()) =~= p.subrange(1, p.len() as int));
    assert(p.subrange(1, p.len() as int) =~= b);
    lemma_addrs_read(s, off + 1, l);
}

proof fn lemma_link_status_read(s: Seq<u8>, off: int, o: LinkStatusOptions, l: Seq<LinkStatusEntry>)
    requires
        0 <= off,
        o.entry_count < 32,
        l.len() <= 16,
        off + CommandView::LinkStatus(o, l).spec_payload().len() == s.len(),
        s.subrange(off, s.len() as int) == CommandView::LinkStatus(o, l).spec_payload(),
    ensures
        spec_parse_payload(s, 0x08, off) == Ok::<(CommandView, int), ParseError>(
            (CommandView::LinkStatus(o, l), s.len() as int),
        ),
{
    let p = CommandView::LinkStatus(o, l).spec_payload();
    let b = link_entries_bytes(l);
    lemma_link_entries_bytes(l);
    lemma_link_status_options(o);
    lemma_u8_within(s, off, p, 0);
    let r = (s.len() - (off + 1)) as nat;
    assert(r == 3 * l.len());
    assert(r / 3 == l.len() && r % 3 == 0) by (nonlinear_arith)
        requires
            r == 3 * l.len(),
    ;
    assert(s.subrange(off + 1, off + 1 + b.len()) =~= p.subrange(1, p.len() as int));
    assert(p.subrange(1, p.len() as int) =~= b);
    lemma_link_entries_read(s, off + 1, l);
}

proof fn lemma_network_report_read(
    s: Seq<u8>,
    off: int,
    o: NetworkReportOptions,
    e: ExtendedAddress,
    l: Seq<PanId>,
)
    requires
        0 <= off,
        o.count < 32,
        l.len() <= 16,
        off + CommandView::NetworkReport(o, e, l).spec_payload().len() == s.len(),
        s.subrange(off, s.len() as int) == CommandView::NetworkReport(o, e, l).spec_payload(),
    ensures
        spec_parse_payload(s, 0x09, off) == Ok::<(CommandView, int), ParseError>(
            (CommandView::NetworkReport(o, e, l), s.len() as int),
        ),
{
    let p = CommandView::NetworkReport(o, e, l).spec_payload();
    let b = pans_bytes(l);
    lemma_pans_bytes(l);
    lemma_le_len(e.0 as nat, 8);
    lemma_report_options(o);
    lemma_u8_within(s, off, p, 0);
    assert(p.subrange(1, 9) =~= u64_le(e.0));
    lemma_u64_within(s, off, p, 1, e.0);
    let r = (s.len() - (off + 9)) as nat;
    assert(r == 2 * l.len());
    assert(r / 2 == l.len() && r % 2 == 0) by (nonlinear_arith)
        requires
            r == 2 * l.len(),
    ;
    assert(s.subrange(off + 9, off + 9 + b.len()) =~= p.subrange(9, p.len() as int));
    assert(p.subrange(9, p.len() as int) =~= b);
    lemma_pans_read(s, off + 9, l);
}

proof fn lemma_link_power_delta_read(s: Seq<u8>, off: int, o: LinkPowerDeltaOptions, l: Seq<DeltaEntry>)
    requires
        0 <= off,
        l.len() <= 32,
        off + CommandView::LinkPowerDelta(o, l).spec_payload().len() <= s.len(),
        s.subrange(off, off + CommandView::LinkPowerDelta(o, l).spec_payload().len())
            == CommandView::LinkPowerDelta(o, l).spec_payload(),
    ensures
        spec_parse_payload(s, 0x0d, off) == Ok::<(CommandView, int), ParseError>(
            (CommandView::LinkPowerDelta(o, l), off + CommandView::LinkPowerDelta(o, l).spec_payload().len()),
        ),
{
    let p = CommandView::LinkPowerDelta(o, l).spec_payload();
    let b = delta_entries_bytes(l);
    lemma_delta_entries_bytes(l);
    lemma_u8_within(s, off, p, 0);
    lemma_u8_within(s, off, p, 1);
    assert(s.subrange(off + 2, off + 2 + b.len()) =~= p.subrange(2, p.len() as int));
    assert(p.subrange(2, p.len() as int) =~= b);
    lemma_delta_entries_read(s, off + 2, l);
}

proof fn lemma_payload_read(s: Seq<u8>, off: int, c: CommandView)
    requires
        c.spec_wf(),
        0 <= off,
        off + c.spec_payload().len() <= s.len(),
        s.subrange(off, off + c.spec_payload().len()) == c.spec_payload(),
        c.spec_reads_to_end() ==> off + c.spec_payload().len() == s.len(),
    ensures
        spec_parse_payload(s, c.spec_id(), off) == Ok::<(CommandView, int), ParseError>(
            (c, off + c.spec_payload().len()),
        ),
{
    let p = c.spec_payload();
    match c {
        CommandView::RouteRequest(r) => lemma_route_request_read(s, off, r),
        CommandView::RouteReply(r) => lemma_route_reply_read(s, off, r),
        CommandView::NetworkStatus(n) => {
            lemma_le_len(n.destination_address.0 as nat, 2);
            lemma_status_code(n.status_code);
            lemma_u8_within(s, off, p, 0);
            assert(p.subrange(1, 3) =~= u16_le(n.destination_address.0));
            lemma_u16_within(s, off, p, 1, n.destination_address.0);
        },
        CommandView::Leave(l) => {
            lemma_leave(l);
            lemma_u8_within(s, off, p, 0);
        },
        CommandView::RouteRecord(l) => lemma_route_record_read(s, off, l),
        CommandView::RejoinRequest(m) => {
            lemma_mac_capabilities_roundtrip(m);
            lemma_u8_within(s, off, p, 0);
        },
        CommandView::RejoinResponse(r) => lemma_rejoin_response_read(s, off, r),
        CommandView::LinkStatus(o, l) => lemma_link_status_read(s, off, o, l),
        CommandView::NetworkReport(o, e, l) => lemma_network_report_read(s, off, o, e, l),
        CommandView::NetworkUpdate(u) => lemma_network_update_read(s, off, u),
        CommandView::EndDeviceTimeoutRequest(r) => {
            lemma_le_len(r.end_device_configuration as nat, 2);
            lemma_device_timeout(r.requested_timeout);
            lemma_u8_within(s, off, p, 0);
            assert(p.subrange(1, 3) =~= u16_le(r.end_device_configuration));
            lemma_u16_within(s, off, p, 1, r.end_device_configuration);
        },
        CommandView::EndDeviceTimeoutResponse(r) => {
            lemma_parent_information(r.parent_information);
            lemma_u8_within(s, off, p, 0);
            lemma_u8_within(s, off, p, 1);
        },
        CommandView::LinkPowerDelta(o, l) => lemma_link_power_delta_read(s, off, o, l),
    }
}

/// Reading a well-formed command from its bytes gives it back, with the
/// offset where its bytes end, wherever the bytes stand; only a command
/// whose list runs to the end (see [`CommandView::spec_reads_to_end`]) must
/// be the last thing in the input.
pub proof fn lemma_command_roundtrip(s: Seq<u8>, off: int, c: CommandView)
    requires
        c.spec_wf(),
        0 <= off,
        off + c.spec_bytes().len() <= s.len(),
        s.subrange(off, off + c.spec_bytes().len()) == c.spec_bytes(),
        c.spec_reads_to_end() ==> off + c.spec_bytes().len() == s.len(),
    ensures
        spec_parse_command(s, off) == Ok::<(CommandView, int), ParseError>(
            (c, off + c.spec_bytes().len()),
        ),
{
    let b = c.spec_bytes();
    let p = c.spec_payload();
    lemma_u8_within(s, off, b, 0);
    assert(s.subrange(off + 1, off + 1 + p.len()) =~= b.subrange(1, b.len() as int));
    assert(b.subrange(1, b.len() as int) =~= p);
    lemma_payload_read(s, off + 1, c);
}

} // verus!
