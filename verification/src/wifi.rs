//! The Wi-Fi programs: where firmware, MAC, connection and scan results go
//! on the screen, and the cycle of a network scan.

use vstd::prelude::*;
use crate::canvas::{
    lemma_ops_view_concat, ops_view, spec_clear_box, spec_small_text, write_with_clear, DrawOp, Point, SpecDrawOp,
};

verus! {

/// How many access points one scan reports at most.
pub const MAX_APS: usize = 16;

/// Where the firmware version goes: right-aligned against the right edge,
/// 12 pixels per character of the version string plus a 3 pixel margin.
pub open spec fn spec_version_position(version_len: nat) -> Point {
    Point { x: (320 - (3 + version_len * 12)) as i32, y: 3 }
}

/// The position of the firmware version line for a version string of
/// `version_len` bytes.
pub fn version_position(version_len: usize) -> (p: Point)
    requires
        3 + version_len * 12 <= 320,
    ensures
        p == spec_version_position(version_len as nat),
{
    Point::new((320 - (3 + version_len * 12)) as i32, 3)
}

/// The header of both Wi-Fi programs: the firmware line at the top right,
/// the MAC line at the top left.
pub fn header_ops(version_text: String, version_len: usize, mac_text: String) -> (ops: Vec<DrawOp>)
    requires
        3 + version_len * 12 <= 320,
    ensures
        ops_view(ops@) == seq![
            spec_small_text(version_text@, spec_version_position(version_len as nat)),
            spec_small_text(mac_text@, Point { x: 3, y: 3 }),
        ],
{
    let mut ops: Vec<DrawOp> = Vec::new();
    ops.push(crate::canvas::write(version_text, version_position(version_len)));
    ops.push(crate::canvas::write(mac_text, Point::new(3, 3)));
    assert(ops_view(ops@) =~= seq![
        spec_small_text(version_text@, spec_version_position(version_len as nat)),
        spec_small_text(mac_text@, Point { x: 3, y: 3 }),
    ]);
    ops
}

/// The three lines that describe an established connection: address,
/// netmask and gateway, one below the other.
pub fn connection_ops(ip_text: String, netmask_text: String, gateway_text: String) -> (ops: Vec<DrawOp>)
    ensures
        ops_view(ops@) == seq![
            spec_small_text(ip_text@, Point { x: 3, y: 30 }),
            spec_small_text(netmask_text@, Point { x: 3, y: 42 }),
            spec_small_text(gateway_text@, Point { x: 3, y: 54 }),
        ],
{
    let mut ops: Vec<DrawOp> = Vec::new();
    ops.push(crate::canvas::write(ip_text, Point::new(3, 30)));
    ops.push(crate::canvas::write(netmask_text, Point::new(3, 42)));
    ops.push(crate::canvas::write(gateway_text, Point::new(3, 54)));
    assert(ops_view(ops@) =~= seq![
        spec_small_text(ip_text@, Point { x: 3, y: 30 }),
        spec_small_text(netmask_text@, Point { x: 3, y: 42 }),
        spec_small_text(gateway_text@, Point { x: 3, y: 54 }),
    ]);
    ops
}

/// One access point of a scan, its fields already turned into text.
pub struct ApRow {
    pub ssid: String,
    pub bssid: String,
    pub rssi: String,
    /// The radio band code the Wi-Fi firmware reported; rows with code 1
    /// carry the "5G" mark.
    pub band: u8,
}

/// The mathematical content of an [`ApRow`].
pub struct SpecApRow {
    pub ssid: Seq<char>,
    pub bssid: Seq<char>,
    pub rssi: Seq<char>,
    pub band: u8,
}

impl View for ApRow {
    type V = SpecApRow;

    open spec fn view(&self) -> SpecApRow {
        SpecApRow { ssid: self.ssid@, bssid: self.bssid@, rssi: self.rssi@, band: self.band }
    }
}

/// The top of row `i` of the scan table.
pub open spec fn row_y(i: int) -> i32 {
    (30 + i * 12) as i32
}

/// What is drawn for row `i`: SSID, BSSID and signal strength, each over a
/// blanked field, and a "5G" mark for band code 1.
pub open spec fn row_ops(i: int, row: SpecApRow) -> Seq<SpecDrawOp> {
    let y = row_y(i);
    let fields = seq![
        spec_clear_box(Point { x: 3, y }, 25),
        spec_small_text(row.ssid, Point { x: 3, y }),
        spec_clear_box(Point { x: 150, y }, 18),
        spec_small_text(row.bssid, Point { x: 150, y }),
        spec_clear_box(Point { x: 290, y }, 4),
        spec_small_text(row.rssi, Point { x: 290, y }),
    ];
    if row.band == 1 {
        fields + seq![spec_clear_box(Point { x: 132, y }, 3), spec_small_text("5G"@, Point { x: 132, y })]
    } else {
        fields
    }
}

/// The drawing steps for the first `n` rows.
pub open spec fn rows_ops(rows: Seq<SpecApRow>, n: int) -> Seq<SpecDrawOp>
    decreases n,
{
    if n <= 0 {
        Seq::<SpecDrawOp>::empty()
    } else {
        rows_ops(rows, n - 1) + row_ops(n - 1, rows[n - 1])
    }
}

/// How many rows are shown: the scan reports `num` access points, and the
/// table never goes past the rows it was given.
pub open spec fn shown_rows(num: u32, len: int) -> int {
    if (num as int) < len { num as int } else { len }
}

/// The number of access points found, at the top of the scan table, over
/// a blanked field of three cells.
pub fn scan_count_ops(count_text: String) -> (ops: Vec<DrawOp>)
    ensures
        ops_view(ops@) == seq![
            spec_clear_box(Point { x: 170, y: 3 }, 3),
            spec_small_text(count_text@, Point { x: 170, y: 3 }),
        ],
{
    write_with_clear(count_text, 3, Point::new(170, 3))
}

/// The rows of the scan table: one per access point, as many as the scan
/// reported and never more than it was given.
pub fn scan_rows_ops(num: u32, rows: Vec<ApRow>) -> (ops: Vec<DrawOp>)
    requires
        rows.len() <= MAX_APS,
    ensures
        ops_view(ops@) == rows_ops(rows@.map_values(|r: ApRow| r@), shown_rows(num, rows.len() as int)),
{
    let ghost views = rows@.map_values(|r: ApRow| r@);
    let ghost header = Seq::<SpecDrawOp>::empty();
    let mut ops: Vec<DrawOp> = Vec::new();
    proof {
        assert(ops_view(ops@) =~= header + rows_ops(views, 0));
    }
    let mut i: usize = 0;
    let n = rows.len();
    for row in it: rows.into_iter()
        invariant_except_break
            n <= MAX_APS,
            n == rows@.len(),
            views == rows@.map_values(|r: ApRow| r@),
            header == Seq::<SpecDrawOp>::empty(),
            it.seq() =~= rows@,
            i == it.index(),
            i <= n,
            i as int <= num as int,
            ops_view(ops@) == header + rows_ops(views, i as int),
        ensures
            ops_view(ops@) == header + rows_ops(views, shown_rows(num, n as int)),
    {
        if i >= num as usize {
            break;
        }
        let ghost before = ops_view(ops@);
        let ghost rv = row@;
        assert(it.index() == i);
        assert(i < n);
        assert(row == it.seq()[i as int]);
        assert(rv == views[i as int]);
        let y = 30 + (i as i32) * 12;
        let mut a = write_with_clear(row.ssid, 25, Point::new(3, y));
        let mut b = write_with_clear(row.bssid, 18, Point::new(150, y));
        let mut c = write_with_clear(row.rssi, 4, Point::new(290, y));
        let ghost o0 = ops@;
        let ghost (va, vb, vc) = (a@, b@, c@);
        ops.append(&mut a);
        ops.append(&mut b);
        ops.append(&mut c);
        proof {
            assert(ops@ == o0 + va + vb + vc);
            lemma_ops_view_concat(o0, va);
            lemma_ops_view_concat(o0 + va, vb);
            lemma_ops_view_concat(o0 + va + vb, vc);
            assert(row_y(i as int) == y);
        }
        let ghost o1 = ops@;
        if row.band == 1 {
            let mut d = write_with_clear(String::from_str("5G"), 3, Point::new(132, y));
            let ghost vd = d@;
            ops.append(&mut d);
            proof {
                assert(ops@ == o1 + vd);
                lemma_ops_view_concat(o1, vd);
            }
        }
        proof {
            assert(ops_view(ops@) =~= before + row_ops(i as int, rv));
            assert(rows_ops(views, i + 1) == rows_ops(views, i as int) + row_ops(i as int, views[i as int]));
            assert(header + rows_ops(views, i as int) + row_ops(i as int, rv) =~= header + rows_ops(views, i + 1));
        }
        i = i + 1;
    }
    proof {
        assert(header + rows_ops(views, shown_rows(num, n as int)) =~= rows_ops(views, shown_rows(num, n as int)));
    }
    ops
}

/// The steps of one scan cycle.
#[derive(Clone, Copy, Debug, PartialEq, Eq, Structural)]
pub enum ScanPhase {
    /// Turn the LED off and start a scan.
    Starting,
    /// Ask whether the scan is still running.
    Polling,
    /// Ask how many access points were found.
    Counting,
    /// Fetch the access points, then turn the LED on.
    Fetching { count: u32 },
    /// Draw the results.
    Showing { count: u32 },
}

/// What came of a step of the scan cycle.
#[derive(Clone, Copy, Debug, PartialEq, Eq, Structural)]
pub enum ScanEvent {
    /// The step was carried out.
    Done,
    /// Whether the scan is still running.
    Scanning(bool),
    /// The number of access points found.
    Found(u32),
}

/// The phase after `p` once its step has had outcome `e`. A phase that
/// waits for an answer stays until it gets one.
pub open spec fn spec_next_phase(p: ScanPhase, e: ScanEvent) -> ScanPhase {
    match p {
        ScanPhase::Starting => ScanPhase::Polling,
        ScanPhase::Polling => match e {
            ScanEvent::Scanning(still) => if still { ScanPhase::Polling } else { ScanPhase::Counting },
            _ => ScanPhase::Polling,
        },
        ScanPhase::Counting => match e {
            ScanEvent::Found(n) => ScanPhase::Fetching { count: n },
            _ => ScanPhase::Counting,
        },
        ScanPhase::Fetching { count } => ScanPhase::Showing { count },
        ScanPhase::Showing { .. } => ScanPhase::Starting,
    }
}

impl ScanPhase {
    /// The first step: start a scan.
    pub fn start() -> (p: ScanPhase)
        ensures
            p == ScanPhase::Starting,
    {
        ScanPhase::Starting
    }

    /// The phase after this one, given the outcome of its step.
    pub fn next(self, e: ScanEvent) -> (p: ScanPhase)
        ensures
            p == spec_next_phase(self, e),
    {
        match self {
            ScanPhase::Starting => ScanPhase::Polling,
            ScanPhase::Polling => match e {
                ScanEvent::Scanning(still) => if still { ScanPhase::Polling } else { ScanPhase::Counting },
                _ => ScanPhase::Polling,
            },
            ScanPhase::Counting => match e {
                ScanEvent::Found(n) => ScanPhase::Fetching { count: n },
                _ => ScanPhase::Counting,
            },
            ScanPhase::Fetching { count } => ScanPhase::Showing { count },
            ScanPhase::Showing { .. } => ScanPhase::Starting,
        }
    }
}

/// Law: the number of access points a scan reports is carried unchanged
/// through fetching to the table that shows it, whatever it is; a running
/// scan is polled again, a finished one is counted, and a shown table
/// starts the next scan.
pub proof fn lemma_scan_count_carried(n: u32, e: ScanEvent, still: bool)
    ensures
        spec_next_phase(ScanPhase::Counting, ScanEvent::Found(n)) == (ScanPhase::Fetching { count: n }),
        spec_next_phase(ScanPhase::Fetching { count: n }, e) == (ScanPhase::Showing { count: n }),
        spec_next_phase(spec_next_phase(ScanPhase::Counting, ScanEvent::Found(n)), e) == (
        ScanPhase::Showing { count: n }),
        spec_next_phase(ScanPhase::Showing { count: n }, e) == ScanPhase::Starting,
        spec_next_phase(ScanPhase::Polling, ScanEvent::Scanning(still)) == (if still {
            ScanPhase::Polling
        } else {
            ScanPhase::Counting
        }),
{
}

/// Law: row `i` of the scan table sits 12 pixels below row `i - 1`,
/// starting 30 pixels from the top; its SSID field is 25 cells wide at
/// x = 3, its BSSID field 18 cells at x = 150, its signal field 4 cells at
/// x = 290, and the "5G" mark, 3 cells at x = 132, appears exactly for
/// band code 1.
pub proof fn lemma_row_layout(i: int, row: SpecApRow)
    requires
        0 <= i < MAX_APS,
    ensures
        row_ops(i, row).len() == (if row.band == 1 { 8int } else { 6int }),
        row_ops(i, row)[0] == spec_clear_box(Point { x: 3, y: (30 + 12 * i) as i32 }, 25),
        row_ops(i, row)[1] == spec_small_text(row.ssid, Point { x: 3, y: (30 + 12 * i) as i32 }),
        row_ops(i, row)[2] == spec_clear_box(Point { x: 150, y: (30 + 12 * i) as i32 }, 18),
        row_ops(i, row)[3] == spec_small_text(row.bssid, Point { x: 150, y: (30 + 12 * i) as i32 }),
        row_ops(i, row)[4] == spec_clear_box(Point { x: 290, y: (30 + 12 * i) as i32 }, 4),
        row_ops(i, row)[5] == spec_small_text(row.rssi, Point { x: 290, y: (30 + 12 * i) as i32 }),
        row.band == 1 ==> row_ops(i, row)[6] == spec_clear_box(Point { x: 132, y: (30 + 12 * i) as i32 }, 3)
            && row_ops(i, row)[7] == spec_small_text("5G"@, Point { x: 132, y: (30 + 12 * i) as i32 }),
{
}

/// Law: the firmware version, 12 pixels per character, ends 3 pixels
/// left of the panel's right edge (x = 320), on the line 3 pixels from the
/// top; a longer version starts further left.
pub proof fn lemma_version_right_aligned(n: nat, m: nat)
    requires
        3 + 12 * m <= 320,
        n <= m,
    ensures
        spec_version_position(n).x + 12 * n + 3 == 320,
        spec_version_position(n).y == 3,
        spec_version_position(m).x <= spec_version_position(n).x,
{
}

/// Law: the table shows as many rows as the scan reported, but never more
/// than it was given.
pub proof fn lemma_shown_rows_is_min(num: u32, len: int)
    requires
        0 <= len,
    ensures
        shown_rows(num, len) <= num,
        shown_rows(num, len) <= len,
        shown_rows(num, len) == num || shown_rows(num, len) == len,
{
}

} // verus!
