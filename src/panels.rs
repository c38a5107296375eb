//! What the panels of the running screen show and where they stand, decided
//! from the snapshot and the terminal's size.

use crate::internal_comms::{DNSInfo, LocalInfo};
use crate::session::opt_text;
use vstd::prelude::*;
use vstd::utf8::encode_utf8;

verus! {

/// Resolution state of one server as the panel shows it.
#[derive(Debug, Clone, Copy, PartialEq, Eq, Structural)]
pub enum ResolveStatus {
    Resolves,
    Failure,
    Waiting,
}

pub open spec fn status_of(can_resolve: Option<bool>) -> ResolveStatus {
    match can_resolve {
        Some(true) => ResolveStatus::Resolves,
        Some(false) => ResolveStatus::Failure,
        None => ResolveStatus::Waiting,
    }
}

/// Number of bytes of the UTF-8 encoding of a text, which is what `str::len`
/// counts.
pub open spec fn byte_len(s: Seq<char>) -> nat {
    encode_utf8(s).len()
}

/// The label shown at the right end of a server's row.
pub open spec fn label_text(status: ResolveStatus) -> Seq<char> {
    match status {
        ResolveStatus::Resolves => "OK"@,
        ResolveStatus::Failure => "Failure"@,
        ResolveStatus::Waiting => "Waiting"@,
    }
}

impl ResolveStatus {
    pub fn label(&self) -> (r: &'static str)
        ensures
            r@ == label_text(*self),
    {
        match self {
            ResolveStatus::Resolves => "OK",
            ResolveStatus::Failure => "Failure",
            ResolveStatus::Waiting => "Waiting",
        }
    }
}

/// One server row: the address, then `padding` spaces, then the status label.
#[derive(Debug)]
pub struct ServerRow {
    pub ip: String,
    pub status: ResolveStatus,
    pub padding: usize,
}

/// The content of the DNS panel.
#[derive(Debug)]
pub enum DnsPanel {
    /// The configuration has not been read yet.
    Fetching,
    /// The probe could not start: unreadable configuration or unusable interface.
    Failed,
    /// The configuration declares no server.
    NoServers,
    Servers(Vec<ServerRow>),
}

/// Spaces that right-align a label after `ip` within `max_width`, both
/// measured in bytes.
pub open spec fn padding_for(ip: Seq<char>, status: ResolveStatus, max_width: usize) -> int {
    let used = byte_len(ip) + byte_len(label_text(status));
    if used >= max_width {
        0
    } else {
        max_width - used
    }
}

/// Decides what the DNS panel shows: a pending state, a distinct failure
/// state, an empty list, or one row per server in list order, each with its
/// status and the padding that right-aligns it within `max_width`.
pub fn dns_panel(info: &DNSInfo, max_width: usize) -> (r: DnsPanel)
    ensures
        info.can_fetch is None ==> r is Fetching,
        info.can_fetch == Some(false) ==> r is Failed,
        info.can_fetch == Some(true) && info.dns_servers@.len() == 0 ==> r is NoServers,
        info.can_fetch == Some(true) && info.dns_servers@.len() > 0 ==> (r matches DnsPanel::Servers(rows)
            && rows@.len() == info.dns_servers@.len() && forall|j: int|
            0 <= j < rows@.len() ==> {
                let row = #[trigger] rows@[j];
                let server = info.dns_servers@[j];
                &&& row.ip@ == server.ip@
                &&& row.status == status_of(server.can_resolve)
                &&& row.padding == padding_for(server.ip@, row.status, max_width)
            }),
{
    match info.can_fetch {
        None => DnsPanel::Fetching,
        Some(false) => DnsPanel::Failed,
        Some(true) => {
            let n = info.dns_servers.len();
            if n == 0 {
                return DnsPanel::NoServers;
            }
            let mut rows: Vec<ServerRow> = Vec::new();
            let mut i: usize = 0;
            while i < n
                invariant
                    n == info.dns_servers@.len(),
                    i <= n,
                    rows@.len() == i,
                    forall|j: int|
                        0 <= j < i ==> {
                            let row = #[trigger] rows@[j];
                            let server = info.dns_servers@[j];
                            &&& row.ip@ == server.ip@
                            &&& row.status == status_of(server.can_resolve)
                            &&& row.padding == padding_for(server.ip@, row.status, max_width)
                        },
                decreases n - i,
            {
                let server = &info.dns_servers[i];
                let status = match server.can_resolve {
                    Some(true) => ResolveStatus::Resolves,
                    Some(false) => ResolveStatus::Failure,
                    None => ResolveStatus::Waiting,
                };
                let used = server.ip.as_str().as_bytes().len().saturating_add(
                    status.label().as_bytes().len(),
                );
                let padding = max_width.saturating_sub(used);
                rows.push(ServerRow { ip: server.ip.clone(), status, padding });
                i = i + 1;
            }
            DnsPanel::Servers(rows)
        },
    }
}

/// Height of one panel, in rows.
pub const BLOCK_HEIGHT: u16 = 10;

/// Least width of one panel column, in columns of the terminal.
pub const BLOCK_WIDTH: u16 = 30;

/// One labelled field of a panel: the label, then `padding` spaces, then the
/// value, or "Unknown" where it is not known.
#[derive(Debug)]
pub struct FieldRow {
    pub label: &'static str,
    pub value: Option<String>,
    pub padding: usize,
}

/// Spaces that right-align a value of `value_width` bytes after a label of
/// `label_width` bytes within `max_width`.
pub open spec fn field_padding(label_width: nat, value_width: nat, max_width: usize) -> int {
    if label_width + value_width >= max_width {
        0
    } else {
        max_width - label_width - value_width
    }
}

/// Number of bytes shown for a field's value ("Unknown" where it is not known).
pub open spec fn value_width(value: Option<String>) -> nat {
    match value {
        Some(v) => byte_len(v@),
        None => byte_len("Unknown"@),
    }
}

fn field_row(label: &'static str, value: &Option<String>, max_width: usize) -> (r: FieldRow)
    ensures
        r.label == label,
        opt_text(r.value) == opt_text(*value),
        r.padding == field_padding(byte_len(label@), value_width(*value), max_width),
{
    let shown = match value {
        Some(v) => v.as_str().as_bytes().len(),
        None => {
            "Unknown".as_bytes().len()
        },
    };
    let padding = max_width.saturating_sub(label.as_bytes().len().saturating_add(shown));
    let kept = match value {
        Some(v) => Some(v.clone()),
        None => None,
    };
    FieldRow { label, value: kept, padding }
}

/// The rows of the network panel: local address, prefix length and gateway,
/// each right-aligned within `max_width`.
pub fn local_panel(info: &LocalInfo, max_width: usize) -> (r: Vec<FieldRow>)
    ensures
        r@.len() == 3,
        r@[0].label@ == "Local IP: "@ && opt_text(r@[0].value) == opt_text(info.local_ip),
        r@[1].label@ == "Subnet Mask: "@ && opt_text(r@[1].value) == opt_text(info.subnet_mask),
        r@[2].label@ == "Gateway: "@ && opt_text(r@[2].value) == opt_text(info.gateway),
        forall|j: int|
            0 <= j < 3 ==> (#[trigger] r@[j]).padding == field_padding(
                byte_len(r@[j].label@),
                value_width(r@[j].value),
                max_width,
            ),
{
    let mut rows: Vec<FieldRow> = Vec::new();
    rows.push(field_row("Local IP: ", &info.local_ip, max_width));
    rows.push(field_row("Subnet Mask: ", &info.subnet_mask, max_width));
    rows.push(field_row("Gateway: ", &info.gateway, max_width));
    proof {
        assert(opt_text(rows@[0].value) == opt_text(info.local_ip));
    }
    rows
}

/// Number of panel columns that a width of `width` holds, at least one, and
/// the width of each.
pub fn grid_columns(width: u16) -> (r: (u16, u16))
    ensures
        r.0 == (if width / BLOCK_WIDTH == 0 {
            1
        } else {
            width / BLOCK_WIDTH
        }),
        r.1 == width / r.0,
{
    let fit = width / BLOCK_WIDTH;
    let columns = if fit == 0 {
        1
    } else {
        fit
    };
    (columns, width / columns)
}

/// Where panel `index` goes in a grid of `columns` columns whose first row
/// starts at `top`: its column and the row of its top edge. `None` where it
/// would not end within `height` rows.
pub fn panel_slot(index: usize, columns: u16, top: u16, height: u16) -> (r: Option<(usize, u16)>)
    requires
        columns > 0,
    ensures
        ({
            let y = top + (index as int / columns as int) * BLOCK_HEIGHT;
            &&& y + BLOCK_HEIGHT <= height ==> r == Some(
                ((index as int % columns as int) as usize, y as u16),
            )
            &&& y + BLOCK_HEIGHT > height ==> r is None
        }),
{
    let col = index % (columns as usize);
    let row = index / (columns as usize);
    if row > (height as usize) / (BLOCK_HEIGHT as usize) {
        proof {
            assert(row * BLOCK_HEIGHT >= height + 1) by (nonlinear_arith)
                requires
                    row > height / 10,
                    BLOCK_HEIGHT == 10,
            ;
        }
        return None;
    }
    proof {
        assert(row * BLOCK_HEIGHT <= height) by (nonlinear_arith)
            requires
                row <= height / 10,
                BLOCK_HEIGHT == 10,
                height >= 0,
        ;
    }
    let y: u32 = top as u32 + (row as u32) * (BLOCK_HEIGHT as u32);
    if y + (BLOCK_HEIGHT as u32) <= height as u32 {
        Some((col, y as u16))
    } else {
        None
    }
}

} // verus!
