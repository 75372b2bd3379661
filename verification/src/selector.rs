//! The resource selector: given plain descriptions of what the display
//! device reports, pick a connected output, a display mode and a primary
//! compositing plane.

use vstd::prelude::*;

verus! {

/// The property value that marks a plane as the primary one.
pub const PLANE_TYPE_PRIMARY: u64 = 1;

/// One display mode an output supports.
#[derive(Clone, Copy, Debug, PartialEq, Eq, Structural)]
pub struct ModeInfo {
    /// Horizontal resolution in pixels.
    pub width: u32,
    /// Vertical resolution in pixels.
    pub height: u32,
    /// Vertical refresh rate in hertz.
    pub refresh: u32,
    /// The device flags this mode as its preferred/default one.
    pub preferred: bool,
}

/// One output connector the device exposes, with its connection state and
/// supported modes.
pub struct ConnectorInfo {
    /// Device-assigned connector identifier.
    pub id: u32,
    /// A display is attached to this connector.
    pub connected: bool,
    /// The modes the attached display supports, in device order.
    pub modes: Vec<ModeInfo>,
}

/// One typed property of a plane: its name as raw bytes, and its current
/// value.
pub struct PropInfo {
    /// Property name bytes.
    pub name: Vec<u8>,
    /// Current property value.
    pub value: u64,
}

/// One compositing plane the device exposes, with its typed properties.
pub struct PlaneInfo {
    /// Device-assigned plane identifier.
    pub id: u32,
    /// The plane's properties, in device order.
    pub props: Vec<PropInfo>,
}

/// The resources selection settles on: immutable once selected.
#[derive(Clone, Copy, Debug, PartialEq, Eq, Structural)]
pub struct DisplayResources {
    /// The chosen connected output.
    pub connector_id: u32,
    /// The chosen display mode.
    pub mode: ModeInfo,
    /// The chosen primary compositing plane.
    pub plane_id: u32,
}

/// Why selection failed; fatal to context construction.
#[derive(Clone, Copy, Debug, PartialEq, Eq, Structural)]
pub enum SelectionError {
    /// No connector reports a connected display.
    NoDisplayFound,
    /// The chosen connector supports no mode at all.
    NoModeFound,
    /// No plane has a type property with the primary value.
    NoPrimaryPlaneFound,
}

/// The area of a mode, the measure used when no mode is preferred.
pub open spec fn mode_area(m: ModeInfo) -> int {
    m.width * m.height
}

/// Computes a mode's area; a product of two 32-bit values always fits in 64
/// bits.
fn mode_area_u64(m: &ModeInfo) -> (r: u64)
    ensures
        r == mode_area(*m),
{
    let w = m.width;
    let h = m.height;
    assert((w as int) * (h as int) <= 0xffff_ffff * 0xffff_ffff) by (nonlinear_arith)
        requires
            w <= 0xffff_ffffu32,
            h <= 0xffff_ffffu32,
    ;
    (w as u64) * (h as u64)
}

/// Position `i` holds the first connected connector.
pub open spec fn is_first_connected(connectors: Seq<ConnectorInfo>, i: int) -> bool {
    &&& 0 <= i < connectors.len()
    &&& connectors[i].connected
    &&& forall|j: int| 0 <= j < i ==> !(#[trigger] connectors[j]).connected
}

/// Some mode in the list carries the preferred flag.
pub open spec fn has_preferred(modes: Seq<ModeInfo>) -> bool {
    exists|j: int| 0 <= j < modes.len() && (#[trigger] modes[j]).preferred
}

/// Position `i` holds the mode selection picks: the first preferred mode
/// when one exists, otherwise the first mode of maximal area.
pub open spec fn is_selected_mode(modes: Seq<ModeInfo>, i: int) -> bool {
    &&& 0 <= i < modes.len()
    &&& if has_preferred(modes) {
        modes[i].preferred && forall|j: int| 0 <= j < i ==> !(#[trigger] modes[j]).preferred
    } else {
        (forall|j: int| 0 <= j < modes.len() ==> mode_area(#[trigger] modes[j]) <= mode_area(
            modes[i],
        )) && (forall|j: int|
            0 <= j < i ==> mode_area(#[trigger] modes[j]) < mode_area(modes[i]))
    }
}

/// Mode selection is deterministic: at most one position satisfies
/// `is_selected_mode`.
pub proof fn lemma_mode_selection_deterministic(modes: Seq<ModeInfo>, i: int, j: int)
    requires
        is_selected_mode(modes, i),
        is_selected_mode(modes, j),
    ensures
        i == j,
{
    if i < j {
        if has_preferred(modes) {
            assert(modes[i].preferred);
            assert(!modes[i].preferred);
        } else {
            assert(mode_area(modes[i]) < mode_area(modes[j]));
            assert(mode_area(modes[j]) <= mode_area(modes[i]));
        }
    } else if j < i {
        if has_preferred(modes) {
            assert(modes[j].preferred);
            assert(!modes[j].preferred);
        } else {
            assert(mode_area(modes[j]) < mode_area(modes[i]));
            assert(mode_area(modes[i]) <= mode_area(modes[j]));
        }
    }
}

/// The plane carries a property named `type` whose value is the primary
/// sentinel.
pub open spec fn is_primary_plane(p: PlaneInfo) -> bool {
    exists|j: int|
        0 <= j < p.props.len() && is_type_property(#[trigger] p.props[j])
}

/// The property is named `type` (the four bytes of that word) and holds the
/// primary sentinel value.
pub open spec fn is_type_property(prop: PropInfo) -> bool {
    prop.name@ == type_name_bytes() && prop.value == PLANE_TYPE_PRIMARY
}

/// The bytes of the property name `type`.
pub open spec fn type_name_bytes() -> Seq<u8> {
    seq![116u8, 121u8, 112u8, 101u8]
}

/// Position `i` holds the first primary plane.
pub open spec fn is_first_primary(planes: Seq<PlaneInfo>, i: int) -> bool {
    &&& 0 <= i < planes.len()
    &&& is_primary_plane(planes[i])
    &&& forall|j: int| 0 <= j < i ==> !is_primary_plane(#[trigger] planes[j])
}

/// Finds the first connected connector; fails when none is connected.
pub fn select_connector(connectors: &Vec<ConnectorInfo>) -> (r: Result<usize, SelectionError>)
    ensures
        match r {
            Ok(i) => is_first_connected(connectors@, i as int),
            Err(e) => e is NoDisplayFound && forall|j: int|
                0 <= j < connectors@.len() ==> !(#[trigger] connectors@[j]).connected,
        },
{
    let mut i: usize = 0;
    while i < connectors.len()
        invariant
            i <= connectors.len(),
            forall|j: int| 0 <= j < i ==> !(#[trigger] connectors@[j]).connected,
        decreases connectors.len() - i,
    {
        if connectors[i].connected {
            return Ok(i);
        }
        i = i + 1;
    }
    Err(SelectionError::NoDisplayFound)
}

/// Picks a display mode: the first preferred mode if one is flagged,
/// otherwise the first mode of maximal area. Fails only on an empty list.
pub fn select_mode(modes: &Vec<ModeInfo>) -> (r: Result<ModeInfo, SelectionError>)
    ensures
        match r {
            Ok(m) => exists|i: int| is_selected_mode(modes@, i) && m == modes@[i],
            Err(e) => e is NoModeFound && modes@.len() == 0,
        },
{
    if modes.len() == 0 {
        return Err(SelectionError::NoModeFound);
    }
    let mut i: usize = 0;
    while i < modes.len()
        invariant
            i <= modes.len(),
            forall|j: int| 0 <= j < i ==> !(#[trigger] modes@[j]).preferred,
        decreases modes.len() - i,
    {
        if modes[i].preferred {
            assert(is_selected_mode(modes@, i as int));
            return Ok(modes[i]);
        }
        i = i + 1;
    }
    let mut best: usize = 0;
    let mut best_area: u64 = mode_area_u64(&modes[0]);
    let mut k: usize = 1;
    while k < modes.len()
        invariant
            1 <= k <= modes.len(),
            best < k,
            !has_preferred(modes@),
            best_area == mode_area(modes@[best as int]),
            forall|j: int| 0 <= j < k ==> mode_area(#[trigger] modes@[j]) <= best_area,
            forall|j: int| 0 <= j < best ==> mode_area(#[trigger] modes@[j]) < best_area,
        decreases modes.len() - k,
    {
        let area: u64 = mode_area_u64(&modes[k]);
        if area > best_area {
            best = k;
            best_area = area;
        }
        k = k + 1;
    }
    assert(is_selected_mode(modes@, best as int));
    Ok(modes[best])
}

/// Whether the property is the plane-type property holding the primary
/// sentinel.
fn prop_is_primary_type(prop: &PropInfo) -> (r: bool)
    ensures
        r == is_type_property(*prop),
{
    let is_name = prop.name.len() == 4 && prop.name[0] == 116 && prop.name[1] == 121
        && prop.name[2] == 112 && prop.name[3] == 101;
    proof {
        if is_name {
            assert(prop.name@ =~= type_name_bytes());
        }
        if prop.name@ == type_name_bytes() {
            assert(prop.name@.len() == 4);
        }
    }
    is_name && prop.value == PLANE_TYPE_PRIMARY
}

/// Finds the first plane whose `type` property holds the primary sentinel;
/// fails when none does.
pub fn select_plane(planes: &Vec<PlaneInfo>) -> (r: Result<u32, SelectionError>)
    ensures
        match r {
            Ok(id) => exists|i: int| is_first_primary(planes@, i) && id == planes@[i].id,
            Err(e) => e is NoPrimaryPlaneFound && forall|j: int|
                0 <= j < planes@.len() ==> !is_primary_plane(#[trigger] planes@[j]),
        },
{
    let mut i: usize = 0;
    while i < planes.len()
        invariant
            i <= planes.len(),
            forall|j: int| 0 <= j < i ==> !is_primary_plane(#[trigger] planes@[j]),
        decreases planes.len() - i,
    {
        let plane = &planes[i];
        let mut p: usize = 0;
        while p < plane.props.len()
            invariant
                i < planes.len(),
                *plane == planes@[i as int],
                p <= plane.props.len(),
                forall|j: int| 0 <= j < i ==> !is_primary_plane(#[trigger] planes@[j]),
                forall|j: int| 0 <= j < p ==> !is_type_property(#[trigger] plane.props@[j]),
            decreases plane.props.len() - p,
        {
            if prop_is_primary_type(&plane.props[p]) {
                proof {
                    assert(*plane == planes@[i as int]);
                    assert(is_type_property(planes@[i as int].props@[p as int]));
                    assert(is_primary_plane(planes@[i as int]));
                    assert(is_first_primary(planes@, i as int));
                }
                return Ok(plane.id);
            }
            p = p + 1;
        }
        proof {
            assert(*plane == planes@[i as int]);
            assert forall|j: int| 0 <= j < planes@[i as int].props@.len() implies !is_type_property(
                #[trigger] planes@[i as int].props@[j],
            ) by {
                assert(planes@[i as int].props@[j] == plane.props@[j]);
            }
            assert(!is_primary_plane(planes@[i as int]));
        }
        i = i + 1;
    }
    Err(SelectionError::NoPrimaryPlaneFound)
}

/// One-shot selection: connected output, then a mode from that output, then
/// the primary plane. The first failure wins, in that order.
pub fn select_resources(connectors: &Vec<ConnectorInfo>, planes: &Vec<PlaneInfo>) -> (r: Result<
    DisplayResources,
    SelectionError,
>)
    ensures
        match r {
            Ok(res) => {
                &&& exists|c: int|
                    #[trigger] is_first_connected(connectors@, c) && res.connector_id
                        == connectors@[c].id && exists|m: int|
                        #[trigger] is_selected_mode(connectors@[c].modes@, m) && res.mode
                            == connectors@[c].modes@[m]
                &&& exists|p: int|
                    #[trigger] is_first_primary(planes@, p) && res.plane_id == planes@[p].id
            },
            Err(e) => match e {
                SelectionError::NoDisplayFound => forall|j: int|
                    0 <= j < connectors@.len() ==> !(#[trigger] connectors@[j]).connected,
                SelectionError::NoModeFound => exists|c: int|
                    is_first_connected(connectors@, c) && (#[trigger] connectors@[c].modes@).len()
                        == 0,
                SelectionError::NoPrimaryPlaneFound => (exists|c: int|
                    is_first_connected(connectors@, c) && (#[trigger] connectors@[c].modes@).len()
                        > 0) && forall|j: int|
                    0 <= j < planes@.len() ==> !is_primary_plane(#[trigger] planes@[j]),
            },
        },
{
    let c = match select_connector(connectors) {
        Ok(c) => c,
        Err(e) => {
            return Err(e);
        },
    };
    let mode = match select_mode(&connectors[c].modes) {
        Ok(m) => m,
        Err(e) => {
            return Err(e);
        },
    };
    let plane_id = match select_plane(planes) {
        Ok(p) => p,
        Err(e) => {
            return Err(e);
        },
    };
    Ok(DisplayResources { connector_id: connectors[c].id, mode, plane_id })
}

} // verus!
