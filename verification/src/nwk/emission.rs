//! The command frames this device sends, as they are built before they go
//! out: a secured command header of its own (see [`NwkHeader::cmd`]) and
//! the command.
use vstd::prelude::*;

use crate::collections::Vec;
use crate::common::{ExtendedAddress, NwkAddress, PanId};
use crate::mac::MacCapabilities;
use crate::nwk::commands::{
    Command, CommandView, DeviceTimeout, EndDeviceTimeoutRequest, EndDeviceTimeoutResponse,
    EndDeviceTimeoutResponseStatus, Leave, NetworkReport, NetworkReportInformation, NetworkReportOptions,
    NetworkStatus, NetworkStatusCmd, ParentInformation, RejoinRequestCmd, RejoinResponseCmd,
    ReportCommandIdentifier,
};
use crate::nwk::constants::NWK_COORDINATOR_ADDRESS;
use crate::nwk::frame::header::{
    spec_cmd_header, spec_next_seq, DiscoverRoute, FrameControl, FrameType, HeaderContext, NwkHeader, NwkHeaderView,
};
use crate::nwk::nlde::NldeTransferError;
use crate::nwk::constants::MAX_NWK_PAYLOAD_SIZE;
use crate::nwk::frame::{NwkFrame, NwkFrameView};
use crate::nwk::router::leave_frame_destination;
use crate::stack_profile::AddrAllocMethod;

verus! {

/// The counter of `b` moved on by one from that of `a`; the rest is kept.
pub open spec fn advanced(a: HeaderContext, b: HeaderContext) -> bool {
    &&& b.addr == a.addr
    &&& b.ext_addr == a.ext_addr
    &&& b.max_depth == a.max_depth
    &&& b.seq_number == spec_next_seq(a.seq_number)
}

/// The parent information a router gives its end devices: it takes MAC
/// data polls and end device timeout requests as keepalives, and does not
/// negotiate power.
pub open spec fn spec_parent_information() -> ParentInformation {
    ParentInformation {
        mac_data_poll_keepalive_supported: true,
        end_device_timeout_request_keepalive_supported: true,
        power_negotiation_supported: false,
    }
}

/// The end device timeout request an end device sends its parent, one hop
/// away, with no configuration asked for.
pub fn end_device_timeout_request_frame(
    ctx: &mut HeaderContext,
    nwk_addr: NwkAddress,
    ext_addr: Option<ExtendedAddress>,
    requested_timeout: DeviceTimeout,
) -> (r: NwkFrame)
    ensures
        advanced(*old(ctx), *final(ctx)),
        r@ == NwkFrameView::NwkCommand(
            spec_cmd_header(*old(ctx), nwk_addr, ext_addr, Some(1)),
            CommandView::EndDeviceTimeoutRequest(
                EndDeviceTimeoutRequest { requested_timeout, end_device_configuration: 0 },
            ),
        ),
{
    let hdr = NwkHeader::cmd(ctx, true, nwk_addr, ext_addr, None, None, Some(1));
    NwkFrame::new_cmd_frame(
        hdr,
        Command::EndDeviceTimeoutRequest(EndDeviceTimeoutRequest { requested_timeout, end_device_configuration: 0 }),
    )
}

/// The end device timeout response a router sends an end device, one hop
/// away (see [`spec_parent_information`]).
pub fn end_device_timeout_response_frame(
    ctx: &mut HeaderContext,
    short_addr: NwkAddress,
    ext_addr: ExtendedAddress,
    status: EndDeviceTimeoutResponseStatus,
) -> (r: NwkFrame)
    ensures
        advanced(*old(ctx), *final(ctx)),
        r@ == NwkFrameView::NwkCommand(
            spec_cmd_header(*old(ctx), short_addr, Some(ext_addr), Some(1)),
            CommandView::EndDeviceTimeoutResponse(
                EndDeviceTimeoutResponse { status, parent_information: spec_parent_information() },
            ),
        ),
{
    let hdr = NwkHeader::cmd(ctx, true, short_addr, Some(ext_addr), None, None, Some(1));
    NwkFrame::new_cmd_frame(
        hdr,
        Command::EndDeviceTimeoutResponse(
            EndDeviceTimeoutResponse {
                status,
                parent_information: ParentInformation {
                    mac_data_poll_keepalive_supported: true,
                    end_device_timeout_request_keepalive_supported: true,
                    power_negotiation_supported: false,
                },
            },
        ),
    )
}

/// The leave command this device sends, one hop away: to the device asked
/// to leave for a request, to all devices whose receiver is on otherwise
/// (see [`leave_frame_destination`]).
pub fn leave_frame(
    ctx: &mut HeaderContext,
    config: Leave,
    dest: NwkAddress,
    dest_ext: Option<ExtendedAddress>,
) -> (r: NwkFrame)
    ensures
        advanced(*old(ctx), *final(ctx)),
        r@ == NwkFrameView::NwkCommand(
            spec_cmd_header(
                *old(ctx),
                if config.request {
                    dest
                } else {
                    NwkAddress(0xfffd)
                },
                dest_ext,
                Some(1),
            ),
            CommandView::Leave(config),
        ),
{
    let to = leave_frame_destination(config, dest);
    let hdr = NwkHeader::cmd(ctx, true, to, dest_ext, None, None, Some(1));
    NwkFrame::new_cmd_frame(hdr, Command::Leave(config))
}

/// The network status command `config` describes.
pub fn network_status_frame(ctx: &mut HeaderContext, config: &NetworkStatusCmd) -> (r: NwkFrame)
    requires
        old(ctx).max_depth * 2 <= 255,
    ensures
        advanced(*old(ctx), *final(ctx)),
        r@ == NwkFrameView::NwkCommand(
            spec_cmd_header(*old(ctx), config.dest_short_addr, config.dest_extended_addr, None),
            CommandView::NetworkStatus(
                NetworkStatus { status_code: config.status_code, destination_address: config.destination_address },
            ),
        ),
{
    let hdr = NwkHeader::cmd(ctx, true, config.dest_short_addr, config.dest_extended_addr, None, None, None);
    NwkFrame::new_cmd_frame(
        hdr,
        Command::NetworkStatus(
            NetworkStatus { status_code: config.status_code, destination_address: config.destination_address },
        ),
    )
}

/// The rejoin request this device sends, one hop away. Under stochastic
/// addressing it asks for no address to be allocated.
pub fn rejoin_request_frame(ctx: &mut HeaderContext, alloc: AddrAllocMethod, config: RejoinRequestCmd) -> (r: NwkFrame)
    ensures
        advanced(*old(ctx), *final(ctx)),
        r@ == NwkFrameView::NwkCommand(
            spec_cmd_header(*old(ctx), config.dest_short_addr, Some(config.dest_ext_addr), Some(1)),
            CommandView::RejoinRequest(
                if alloc == AddrAllocMethod::Stochastic {
                    MacCapabilities { allocate_address: false, ..config.capability_information }
                } else {
                    config.capability_information
                },
            ),
        ),
{
    let mut cap = config.capability_information;
    if let AddrAllocMethod::Stochastic = alloc {
        cap.allocate_address = false;
    }
    let hdr = NwkHeader::cmd(ctx, true, config.dest_short_addr, Some(config.dest_ext_addr), None, None, Some(1));
    NwkFrame::new_cmd_frame(hdr, Command::RejoinRequest(cap))
}

/// The rejoin response `cfg` describes.
pub fn rejoin_response_frame(ctx: &mut HeaderContext, cfg: &RejoinResponseCmd) -> (r: NwkFrame)
    requires
        old(ctx).max_depth * 2 <= 255,
    ensures
        advanced(*old(ctx), *final(ctx)),
        r@ == NwkFrameView::NwkCommand(
            spec_cmd_header(*old(ctx), cfg.dst_addr, Some(cfg.ext_dst_addr), None),
            CommandView::RejoinResponse(cfg.rejoin_response),
        ),
{
    let hdr = NwkHeader::cmd(ctx, true, cfg.dst_addr, Some(cfg.ext_dst_addr), None, None, None);
    NwkFrame::new_cmd_frame(hdr, Command::RejoinResponse(cfg.rejoin_response))
}

/// The report of a PAN identifier conflict this device sends the
/// coordinator, listing the PAN identifiers it heard.
pub fn nwk_report_frame(ctx: &mut HeaderContext, ext_pan_id: ExtendedAddress, pan_ids: Vec<PanId, 16>) -> (r: NwkFrame)
    requires
        old(ctx).max_depth * 2 <= 255,
    ensures
        advanced(*old(ctx), *final(ctx)),
        r@ == NwkFrameView::NwkCommand(
            spec_cmd_header(*old(ctx), NwkAddress(NWK_COORDINATOR_ADDRESS), None, None),
            CommandView::NetworkReport(
                NetworkReportOptions {
                    count: pan_ids@.len() as u8,
                    command_identifier: ReportCommandIdentifier::PanIdentifierConflict,
                },
                ext_pan_id,
                pan_ids@,
            ),
        ),
{
    let count = pan_ids.len() as u8;
    let hdr = NwkHeader::cmd(ctx, true, NwkAddress(NWK_COORDINATOR_ADDRESS), None, None, None, None);
    NwkFrame::new_cmd_frame(
        hdr,
        Command::NetworkReport(
            NetworkReport {
                options: NetworkReportOptions {
                    count,
                    command_identifier: ReportCommandIdentifier::PanIdentifierConflict,
                },
                extended_pan_id: ext_pan_id,
                report_information: NetworkReportInformation::PanIdentifierConflict(pan_ids),
            },
        ),
    )
}

/// The source and sequence number a frame is sent under in another
/// device's name.
#[derive(Clone, Copy, Debug, PartialEq, Eq, Structural)]
pub struct Alias {
    pub src_addr: NwkAddress,
    pub seq_number: u8,
}

/// How a data frame is sent.
#[derive(Clone, Copy, Debug, PartialEq, Eq, Structural)]
pub struct DataFrameConfig {
    pub dst_address: NwkAddress,
    pub alias: Option<Alias>,
    pub radius: Option<u8>,
    pub discover_route: bool,
    pub security_disable: bool,
}

/// The header of a data frame sent as `config` says (see [`data_frame`]).
pub open spec fn spec_data_header(ctx: HeaderContext, config: DataFrameConfig) -> NwkHeaderView {
    NwkHeaderView {
        control: FrameControl {
            frame_type: FrameType::Data,
            version: 2,
            route_discovery: if config.discover_route {
                DiscoverRoute::Enable
            } else {
                DiscoverRoute::Suppress
            },
            multicast: false,
            security: !config.security_disable,
            source_route: false,
            dst_ext_addr: false,
            src_ext_addr: false,
            end_device_initiator: false,
        },
        destination: config.dst_address,
        source: match config.alias {
            Some(a) => a.src_addr,
            None => ctx.addr,
        },
        radius: match config.radius {
            Some(x) => x,
            None => (ctx.max_depth * 2) as u8,
        },
        sequence_number: match config.alias {
            Some(a) => a.seq_number,
            None => ctx.seq_number,
        },
        destination_ieee: None,
        source_ieee: None,
        multicast_control: None,
        source_route_subframe: None,
    }
}

/// The data frame that carries `nsdu` as `config` says: secured unless
/// security is disabled, from this device under its next sequence number
/// or from the alias under the alias's; a payload too long for a frame is
/// refused as an invalid request. The frame goes to this device's parent.
pub fn data_frame(ctx: &mut HeaderContext, nsdu: &[u8], config: &DataFrameConfig) -> (r: Result<NwkFrame, NldeTransferError>)
    requires
        config.radius is None ==> old(ctx).max_depth * 2 <= 255,
    ensures
        final(ctx).addr == old(ctx).addr,
        final(ctx).ext_addr == old(ctx).ext_addr,
        final(ctx).max_depth == old(ctx).max_depth,
        final(ctx).seq_number == (if config.alias is None {
            spec_next_seq(old(ctx).seq_number)
        } else {
            old(ctx).seq_number
        }),
        nsdu@.len() > MAX_NWK_PAYLOAD_SIZE ==> r == Err::<NwkFrame, NldeTransferError>(NldeTransferError::InvalidRequest),
        nsdu@.len() <= MAX_NWK_PAYLOAD_SIZE ==> (r matches Ok(f) && f@ == NwkFrameView::Data(
            spec_data_header(*old(ctx), *config),
            nsdu@,
        )),
{
    let (src, seq) = match config.alias {
        None => {
            let own = ctx.addr;
            (own, ctx.get_next_seq_number())
        },
        Some(alias) => (alias.src_addr, alias.seq_number),
    };
    let header = NwkHeader::new(
        ctx,
        FrameType::Data,
        !config.security_disable,
        config.discover_route,
        config.dst_address,
        None,
        None,
        None,
        Some(src),
        Some(seq),
        config.radius,
    );
    let payload = match Vec::from_slice(nsdu) {
        Ok(p) => {
            proof {
                assert(p@ =~= nsdu@);
            }
            p
        },
        Err(_) => return Err(NldeTransferError::InvalidRequest),
    };
    Ok(NwkFrame::new_data_frame(header, payload))
}

} // verus!
