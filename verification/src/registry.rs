//! Capability registry: which devices are supported and what each can do.

use vstd::prelude::*;
use vstd::string::StringExecFns;

verus! {

pub const ROW_COUNT: usize = 2;

pub const COL_COUNT: usize = 5;

/// Physical key slots on the wire: four wide touch-zone tiles, one unused
/// slot, and ten regular keys.
pub const KEY_COUNT: usize = 15;

pub const ENCODER_COUNT: usize = 4;

pub const TOUCH_ZONE_COUNT: usize = 4;

/// Device type announced to the host: a panel with encoders and touch zones.
pub const DEVICE_TYPE: u8 = 7;

pub const MIRABOX_VID: u16 = 0x6603;

pub const N4_PID: u16 = 0x1007;

pub const AJAZZ_VID: u16 = 0x0300;

pub const AKP05_PID: u16 = 0x3004;

pub const USAGE_PAGE: u16 = 65440;

pub const USAGE_ID: u16 = 1;

#[derive(Debug, Clone, Copy, PartialEq, Eq, Structural)]
pub enum Kind {
    Akp05,
    N4,
}

#[derive(Debug, Clone, Copy, PartialEq, Eq, Structural)]
pub enum ImageMode {
    /// The tile shows no image.
    Off,
    JPEG,
}

#[derive(Debug, Clone, Copy, PartialEq, Eq, Structural)]
pub enum ImageRotation {
    Rot0,
    Rot90,
    Rot180,
    Rot270,
}

#[derive(Debug, Clone, Copy, PartialEq, Eq, Structural)]
pub enum ImageMirroring {
    Off,
    X,
    Y,
    Both,
}

/// How a tile wants its bitmap: encoding, pixel size, rotation and
/// mirroring.
#[derive(Debug, Clone, Copy, PartialEq, Eq, Structural)]
pub struct ImageFormat {
    pub mode: ImageMode,
    pub width: usize,
    pub height: usize,
    pub rotation: ImageRotation,
    pub mirror: ImageMirroring,
}

/// A place in the host's view of the layout.
#[derive(Debug, Clone, Copy, PartialEq, Eq, Structural)]
pub enum LogicalPosition {
    /// Row-major index into the key grid.
    Key(u8),
    /// Index of an encoder, addressing the touch zone that belongs to it.
    Encoder(u8),
}

/// One device kind as `(usage page, usage id, vendor id, product id)`.
#[derive(Debug, Clone, Copy, PartialEq, Eq, Structural)]
pub struct DeviceQuery {
    pub usage_page: u16,
    pub usage_id: u16,
    pub vendor_id: u16,
    pub product_id: u16,
}

/// Static capabilities of one device kind.
#[derive(Debug, Clone, Copy, PartialEq, Eq, Structural)]
pub struct DeviceProfile {
    pub kind: Kind,
    pub rows: u8,
    pub cols: u8,
    /// Number of physical key slots the wire protocol addresses.
    pub key_count: u8,
    pub encoder_count: u8,
    pub touch_zones: u8,
    pub protocol_version: usize,
    pub key_format: ImageFormat,
    pub zone_format: ImageFormat,
    /// First wire index of the regular key grid.
    pub key_base: u8,
    /// First wire index of the touch-zone tiles.
    pub zone_base: u8,
    /// The hardware numbers the grid rows bottom-up.
    pub rows_reversed: bool,
    /// Clearing the whole device also clears the touch-zone tiles.
    pub clear_covers_zones: bool,
}

impl ImageFormat {
    /// A format a bitmap can be rendered for: a non-empty size of at most
    /// 4096 pixels each way.
    pub open spec fn wf(&self) -> bool {
        &&& 0 < self.width <= 4096
        &&& 0 < self.height <= 4096
    }
}

impl Kind {
    pub open spec fn spec_from_vid_pid(vid: u16, pid: u16) -> Option<Kind> {
        if vid == AJAZZ_VID && pid == AKP05_PID {
            Some(Kind::Akp05)
        } else if vid == MIRABOX_VID && pid == N4_PID {
            Some(Kind::N4)
        } else {
            None
        }
    }

    /// Matches a vendor/product pair to the device kind it denotes.
    pub fn from_vid_pid(vid: u16, pid: u16) -> (kind: Option<Kind>)
        ensures
            kind == Kind::spec_from_vid_pid(vid, pid),
    {
        if vid == AJAZZ_VID {
            if pid == AKP05_PID {
                Some(Kind::Akp05)
            } else {
                None
            }
        } else if vid == MIRABOX_VID {
            if pid == N4_PID {
                Some(Kind::N4)
            } else {
                None
            }
        } else {
            None
        }
    }

    pub open spec fn spec_human_name(&self) -> Seq<char> {
        match self {
            Kind::Akp05 => "Ajazz AKP05"@,
            Kind::N4 => "Mirabox N4"@,
        }
    }

    /// The name shown to the user; the names the USB stack reports are not
    /// worth relying on.
    pub fn human_name(&self) -> (name: String)
        ensures
            name@ == self.spec_human_name(),
    {
        match self {
            Kind::Akp05 => String::from_str("Ajazz AKP05"),
            Kind::N4 => String::from_str("Mirabox N4"),
        }
    }

    pub open spec fn spec_tag(&self) -> Seq<char> {
        match self {
            Kind::Akp05 => "Akp05"@,
            Kind::N4 => "N4"@,
        }
    }

    /// The variant's name, as it appears in derived identifiers.
    pub fn tag(&self) -> (tag: String)
        ensures
            tag@ == self.spec_tag(),
    {
        match self {
            Kind::Akp05 => String::from_str("Akp05"),
            Kind::N4 => String::from_str("N4"),
        }
    }

    pub open spec fn spec_query(&self) -> DeviceQuery {
        match self {
            Kind::Akp05 => DeviceQuery {
                usage_page: USAGE_PAGE,
                usage_id: USAGE_ID,
                vendor_id: AJAZZ_VID,
                product_id: AKP05_PID,
            },
            Kind::N4 => DeviceQuery {
                usage_page: USAGE_PAGE,
                usage_id: USAGE_ID,
                vendor_id: MIRABOX_VID,
                product_id: N4_PID,
            },
        }
    }

    /// The bus query that finds devices of this kind.
    pub fn query(&self) -> (q: DeviceQuery)
        ensures
            q == self.spec_query(),
            Kind::spec_from_vid_pid(q.vendor_id, q.product_id) == Some(*self),
    {
        match self {
            Kind::Akp05 => DeviceQuery {
                usage_page: USAGE_PAGE,
                usage_id: USAGE_ID,
                vendor_id: AJAZZ_VID,
                product_id: AKP05_PID,
            },
            Kind::N4 => DeviceQuery {
                usage_page: USAGE_PAGE,
                usage_id: USAGE_ID,
                vendor_id: MIRABOX_VID,
                product_id: N4_PID,
            },
        }
    }

    /// Wire protocol version the device speaks.
    pub fn protocol_version(&self) -> (v: usize)
        ensures
            v == 3,
    {
        match self {
            Kind::Akp05 => 3,
            Kind::N4 => 3,
        }
    }

    pub open spec fn spec_image_format(&self) -> ImageFormat {
        ImageFormat {
            mode: ImageMode::JPEG,
            width: 112,
            height: 112,
            rotation: ImageRotation::Rot180,
            mirror: ImageMirroring::Off,
        }
    }

    /// Image format of the regular LCD keys.
    pub fn image_format(&self) -> (f: ImageFormat)
        ensures
            f == self.spec_image_format(),
            f.wf(),
    {
        ImageFormat {
            mode: ImageMode::JPEG,
            width: 112,
            height: 112,
            rotation: ImageRotation::Rot180,
            mirror: ImageMirroring::Off,
        }
    }

    pub open spec fn spec_image_format_touchzone(&self) -> ImageFormat {
        ImageFormat {
            mode: ImageMode::JPEG,
            width: 184,
            height: 120,
            rotation: ImageRotation::Rot180,
            mirror: ImageMirroring::Off,
        }
    }

    /// Image format of the wide touch-zone tiles, one per encoder.
    pub fn image_format_touchzone(&self) -> (f: ImageFormat)
        ensures
            f == self.spec_image_format_touchzone(),
            f.wf(),
    {
        ImageFormat {
            mode: ImageMode::JPEG,
            width: 184,
            height: 120,
            rotation: ImageRotation::Rot180,
            mirror: ImageMirroring::Off,
        }
    }

    pub open spec fn spec_profile(&self) -> DeviceProfile {
        DeviceProfile {
            kind: *self,
            rows: ROW_COUNT as u8,
            cols: COL_COUNT as u8,
            key_count: KEY_COUNT as u8,
            encoder_count: ENCODER_COUNT as u8,
            touch_zones: TOUCH_ZONE_COUNT as u8,
            protocol_version: 3,
            key_format: self.spec_image_format(),
            zone_format: self.spec_image_format_touchzone(),
            key_base: 5,
            zone_base: 0,
            rows_reversed: true,
            clear_covers_zones: true,
        }
    }

    /// The capability profile of this kind.
    pub fn profile(&self) -> (p: DeviceProfile)
        ensures
            p == self.spec_profile(),
            p.wf(),
    {
        DeviceProfile {
            kind: *self,
            rows: ROW_COUNT as u8,
            cols: COL_COUNT as u8,
            key_count: KEY_COUNT as u8,
            encoder_count: ENCODER_COUNT as u8,
            touch_zones: TOUCH_ZONE_COUNT as u8,
            protocol_version: self.protocol_version(),
            key_format: self.image_format(),
            zone_format: self.image_format_touchzone(),
            key_base: 5,
            zone_base: 0,
            rows_reversed: true,
            clear_covers_zones: true,
        }
    }
}

/// The bus queries of every supported kind.
pub fn queries() -> (qs: Vec<DeviceQuery>)
    ensures
        qs@ == seq![Kind::Akp05.spec_query(), Kind::N4.spec_query()],
{
    let mut qs: Vec<DeviceQuery> = Vec::new();
    qs.push(Kind::Akp05.query());
    qs.push(Kind::N4.query());
    qs
}

pub open spec fn spec_classify(vendor_id: u16, product_id: u16) -> Option<DeviceProfile> {
    match Kind::spec_from_vid_pid(vendor_id, product_id) {
        Some(kind) => Some(kind.spec_profile()),
        None => None,
    }
}

/// Looks a vendor/product pair up in the capability table. Pairs outside
/// the table give `None`; every profile that comes out is well formed.
pub fn classify(vendor_id: u16, product_id: u16) -> (profile: Option<DeviceProfile>)
    ensures
        profile == spec_classify(vendor_id, product_id),
        profile matches Some(p) ==> p.wf(),
{
    match Kind::from_vid_pid(vendor_id, product_id) {
        Some(kind) => Some(kind.profile()),
        None => None,
    }
}

impl DeviceProfile {
    /// The name of the device kind, as shown to the user.
    pub fn human_name(&self) -> (name: String)
        ensures
            name@ == self.kind.spec_human_name(),
    {
        self.kind.human_name()
    }

    /// Number of positions in the key grid.
    pub open spec fn grid_size(&self) -> int {
        self.rows * self.cols
    }

    /// The grid and the touch zones fit into the physical key slots without
    /// sharing any, and both formats can be rendered.
    pub open spec fn wf(&self) -> bool {
        &&& self.rows > 0
        &&& self.cols > 0
        &&& self.key_base + self.grid_size() <= self.key_count
        &&& self.zone_base + self.touch_zones <= self.key_count
        &&& (self.zone_base + self.touch_zones <= self.key_base || self.key_base
            + self.grid_size() <= self.zone_base)
        &&& self.touch_zones <= self.encoder_count
        &&& self.key_format.wf()
        &&& self.zone_format.wf()
    }

    /// The row the hardware uses for logical row `row`.
    pub open spec fn physical_row(&self, row: int) -> int {
        if self.rows_reversed {
            self.rows - 1 - row
        } else {
            row
        }
    }

    /// The key slot of grid position `p`: the grid starts at `key_base` and
    /// goes row by row in the hardware's order.
    pub open spec fn grid_slot(&self, p: int) -> int {
        let row = p / self.cols as int;
        let col = p % self.cols as int;
        self.key_base + self.physical_row(row) * self.cols + col
    }

    pub open spec fn spec_wire_index_of(&self, pos: LogicalPosition) -> Option<u8> {
        match pos {
            LogicalPosition::Key(p) => if p < self.grid_size() {
                Some(self.grid_slot(p as int) as u8)
            } else {
                None
            },
            LogicalPosition::Encoder(e) => if e < self.touch_zones {
                Some((self.zone_base + e) as u8)
            } else {
                None
            },
        }
    }

    /// The wire index of a logical position, or `None` where the position
    /// lies outside the layout.
    pub fn wire_index_of(&self, pos: LogicalPosition) -> (index: Option<u8>)
        requires
            self.wf(),
        ensures
            index == self.spec_wire_index_of(pos),
            index matches Some(i) ==> i < self.key_count,
    {
        proof {
            self.lemma_wire_index_bounds(pos);
        }
        match pos {
            LogicalPosition::Key(p) => {
                let rows: usize = self.rows as usize;
                let cols: usize = self.cols as usize;
                assert(rows * cols == self.grid_size());
                assert(rows * cols <= 255);
                if (p as usize) < rows * cols {
                    let row: usize = p as usize / cols;
                    let col: usize = p as usize % cols;
                    assert(row < rows && col < cols && row * cols + col == p) by (nonlinear_arith)
                        requires
                            row == p as usize / cols,
                            col == p as usize % cols,
                            cols > 0,
                            (p as usize) < rows * cols,
                    ;
                    let prow: usize = if self.rows_reversed {
                        rows - 1 - row
                    } else {
                        row
                    };
                    assert(prow * cols + col < rows * cols) by (nonlinear_arith)
                        requires
                            prow < rows,
                            col < cols,
                    ;
                    Some((self.key_base as usize + prow * cols + col) as u8)
                } else {
                    None
                }
            },
            LogicalPosition::Encoder(e) => {
                if e < self.touch_zones {
                    Some(self.zone_base + e)
                } else {
                    None
                }
            },
        }
    }

    /// A position inside the layout maps into its own range of key slots:
    /// grid positions after `key_base`, touch zones after `zone_base`.
    pub proof fn lemma_wire_index_bounds(&self, pos: LogicalPosition)
        requires
            self.wf(),
        ensures
            match pos {
                LogicalPosition::Key(p) => p < self.grid_size() ==> {
                    &&& self.spec_wire_index_of(pos) is Some
                    &&& self.key_base <= self.spec_wire_index_of(pos).unwrap() < self.key_base
                        + self.grid_size()
                    &&& self.spec_wire_index_of(pos).unwrap() == self.grid_slot(p as int)
                },
                LogicalPosition::Encoder(e) => e < self.touch_zones ==> {
                    &&& self.spec_wire_index_of(pos) is Some
                    &&& self.zone_base <= self.spec_wire_index_of(pos).unwrap() < self.zone_base
                        + self.touch_zones
                },
            },
            self.spec_wire_index_of(pos) matches Some(i) ==> i < self.key_count,
    {
        match pos {
            LogicalPosition::Key(p) => {
                if p < self.grid_size() {
                    let cols = self.cols as int;
                    let rows = self.rows as int;
                    let row = p as int / cols;
                    let col = p as int % cols;
                    assert(0 <= row < rows && 0 <= col < cols) by (nonlinear_arith)
                        requires
                            row == p as int / cols,
                            col == p as int % cols,
                            cols > 0,
                            0 <= p as int,
                            (p as int) < rows * cols,
                    ;
                    let prow = self.physical_row(row);
                    assert(0 <= prow * cols + col < rows * cols) by (nonlinear_arith)
                        requires
                            0 <= prow < rows,
                            0 <= col < cols,
                    ;
                }
            },
            LogicalPosition::Encoder(e) => {},
        }
    }

    /// No two logical positions of a well-formed profile share a wire index.
    pub proof fn lemma_wire_index_injective(&self, a: LogicalPosition, b: LogicalPosition)
        requires
            self.wf(),
            self.spec_wire_index_of(a) is Some,
            self.spec_wire_index_of(a) == self.spec_wire_index_of(b),
        ensures
            a == b,
    {
        self.lemma_wire_index_bounds(a);
        self.lemma_wire_index_bounds(b);
        match (a, b) {
            (LogicalPosition::Key(p), LogicalPosition::Key(q)) => {
                let cols = self.cols as int;
                let rows = self.rows as int;
                let pr = self.physical_row(p as int / cols);
                let qr = self.physical_row(q as int / cols);
                let pc = p as int % cols;
                let qc = q as int % cols;
                assert(pr * cols + pc == qr * cols + qc);
                assert(0 <= pc < cols && 0 <= qc < cols) by (nonlinear_arith)
                    requires
                        pc == p as int % cols,
                        qc == q as int % cols,
                        cols > 0,
                ;
                assert(pr == qr && pc == qc) by (nonlinear_arith)
                    requires
                        pr * cols + pc == qr * cols + qc,
                        0 <= pc < cols,
                        0 <= qc < cols,
                ;
                assert(p as int / cols == q as int / cols);
                assert(p as int == q as int) by (nonlinear_arith)
                    requires
                        p as int / cols == q as int / cols,
                        p as int % cols == q as int % cols,
                        cols > 0,
                ;
            },
            (LogicalPosition::Encoder(e), LogicalPosition::Encoder(f)) => {},
            _ => {},
        }
    }
}

/// Every supported vendor/product pair classifies to a profile on which
/// `wire_index_of` never sends two logical positions to one wire index.
pub proof fn lemma_classified_profiles_are_injective(
    vendor_id: u16,
    product_id: u16,
    a: LogicalPosition,
    b: LogicalPosition,
)
    requires
        spec_classify(vendor_id, product_id) is Some,
        spec_classify(vendor_id, product_id).unwrap().spec_wire_index_of(a) is Some,
        spec_classify(vendor_id, product_id).unwrap().spec_wire_index_of(a) == spec_classify(
            vendor_id,
            product_id,
        ).unwrap().spec_wire_index_of(b),
    ensures
        spec_classify(vendor_id, product_id).unwrap().wf(),
        a == b,
{
    let p = spec_classify(vendor_id, product_id).unwrap();
    p.lemma_wire_index_injective(a, b);
}

} // verus!
