//! Worksheets and the layout of the window they stand in.

use vstd::prelude::*;

use crate::counters::{next_count, Kind, LiveCounters};
use crate::error::{DbError, ErrorModel, ReldexErrorKind};
use crate::profile::{millis_to_ffi, shown_millis};
use crate::settings::worded;
use crate::status::Boundary;
use crate::strings::{OwnedStr, ReldexStr};

verus! {

/// The bytes that stand where there is no id.
pub open spec fn no_id() -> Seq<u8> {
    Seq::new(16, |i: int| 0u8)
}

/// The bytes that stand where there is no id.
pub(crate) fn zero_id() -> (id: [u8; 16])
    ensures
        id@ == no_id(),
{
    let id: [u8; 16] = [0u8; 16];
    assert(id@ =~= no_id());
    id
}

/// What the editor of a worksheet holds.
#[derive(Debug, Clone)]
pub struct WorksheetState {
    pub title: String,
    pub text: String,
    pub caret: u32,
    pub scroll: u32,
}

/// A worksheet. Its times are milliseconds since 1970.
#[derive(Debug, Clone)]
pub struct Worksheet {
    pub id: [u8; 16],
    pub profile: Option<[u8; 16]>,
    pub state: WorksheetState,
    pub tab_order: u32,
    pub created_at: i64,
    pub updated_at: i64,
}

/// A worksheet as a caller is shown it.
#[derive(Debug)]
pub struct StoredWorksheet {
    pub id: [u8; 16],
    pub has_profile: bool,
    pub profile_id: [u8; 16],
    pub title: OwnedStr,
    pub text: OwnedStr,
    pub caret: u32,
    pub scroll: u32,
    pub tab_order: u32,
    pub created_at: u64,
    pub updated_at: u64,
}

/// A worksheet as a caller is shown it.
#[verifier::ext_equal]
pub struct ShownWorksheet {
    pub id: Seq<u8>,
    pub has_profile: bool,
    pub profile_id: Seq<u8>,
    pub title: Seq<char>,
    pub text: Seq<char>,
    pub caret: u32,
    pub scroll: u32,
    pub tab_order: u32,
    pub created_at: u64,
    pub updated_at: u64,
}

impl View for StoredWorksheet {
    type V = ShownWorksheet;

    open spec fn view(&self) -> ShownWorksheet {
        ShownWorksheet {
            id: self.id@,
            has_profile: self.has_profile,
            profile_id: self.profile_id@,
            title: self.title@,
            text: self.text@,
            caret: self.caret,
            scroll: self.scroll,
            tab_order: self.tab_order,
            created_at: self.created_at,
            updated_at: self.updated_at,
        }
    }
}

/// The bytes of an id, where there is one.
pub open spec fn id_bytes(id: Option<[u8; 16]>) -> Seq<u8> {
    match id {
        Some(id) => id@,
        None => no_id(),
    }
}

/// The bytes of an id, where there is one.
fn bytes_or_zero(id: Option<[u8; 16]>) -> (bytes: [u8; 16])
    ensures
        bytes@ == id_bytes(id),
        id matches Some(id) ==> bytes == id,
{
    match id {
        Some(id) => id,
        None => zero_id(),
    }
}

/// A worksheet as a caller is shown it.
pub open spec fn shown_worksheet(worksheet: Worksheet) -> ShownWorksheet {
    ShownWorksheet {
        id: worksheet.id@,
        has_profile: worksheet.profile is Some,
        profile_id: id_bytes(worksheet.profile),
        title: worksheet.state.title@,
        text: worksheet.state.text@,
        caret: worksheet.state.caret,
        scroll: worksheet.state.scroll,
        tab_order: worksheet.tab_order,
        created_at: shown_millis(worksheet.created_at),
        updated_at: shown_millis(worksheet.updated_at),
    }
}

impl StoredWorksheet {
    /// A worksheet as a caller is shown it.
    pub fn from_worksheet(worksheet: &Worksheet) -> (stored: Self)
        ensures
            stored@ == shown_worksheet(*worksheet),
    {
        StoredWorksheet {
            id: worksheet.id,
            has_profile: worksheet.profile.is_some(),
            profile_id: bytes_or_zero(worksheet.profile),
            title: OwnedStr::new(worksheet.state.title.clone()),
            text: OwnedStr::new(worksheet.state.text.clone()),
            caret: worksheet.state.caret,
            scroll: worksheet.state.scroll,
            tab_order: worksheet.tab_order,
            created_at: millis_to_ffi(worksheet.created_at),
            updated_at: millis_to_ffi(worksheet.updated_at),
        }
    }

    /// The worksheet's view, `valid` bytes of it being valid.
    pub fn show(&self, valid: u32) -> (view: ReldexWorksheetView<'_>)
        ensures
            view.struct_size == valid,
            view.shows(self@),
    {
        ReldexWorksheetView {
            struct_size: valid,
            id: self.id,
            has_profile: self.has_profile,
            profile_id: self.profile_id,
            title: self.title.as_reldex_str(),
            text: self.text.as_reldex_str(),
            caret: self.caret,
            scroll: self.scroll,
            tab_order: self.tab_order,
            created_at: self.created_at,
            updated_at: self.updated_at,
        }
    }
}

/// One worksheet, its strings borrowed from the list it came from.
#[derive(Debug, Clone, Copy)]
pub struct ReldexWorksheetView<'a> {
    /// How many bytes of it are valid.
    pub struct_size: u32,
    pub id: [u8; 16],
    pub has_profile: bool,
    /// The profile it is attached to, where there is one.
    pub profile_id: [u8; 16],
    pub title: ReldexStr<'a>,
    /// The editor's contents, verbatim.
    pub text: ReldexStr<'a>,
    pub caret: u32,
    pub scroll: u32,
    /// Its place in the tab bar.
    pub tab_order: u32,
    /// Milliseconds since 1970.
    pub created_at: u64,
    /// Milliseconds since 1970.
    pub updated_at: u64,
}

impl<'a> ReldexWorksheetView<'a> {
    /// Whether this shows `worksheet`.
    pub open spec fn shows(self, worksheet: ShownWorksheet) -> bool {
        &&& self.id@ == worksheet.id
        &&& self.has_profile == worksheet.has_profile
        &&& self.profile_id@ == worksheet.profile_id
        &&& self.title.carries(worksheet.title)
        &&& self.text.carries(worksheet.text)
        &&& self.caret == worksheet.caret
        &&& self.scroll == worksheet.scroll
        &&& self.tab_order == worksheet.tab_order
        &&& self.created_at == worksheet.created_at
        &&& self.updated_at == worksheet.updated_at
    }
}

/// The open worksheets, owned by the caller from the moment the reply that
/// carries them is drained.
#[derive(Debug)]
pub struct ReldexWorksheetList {
    worksheets: Vec<StoredWorksheet>,
}

/// Worksheets as a caller is shown them.
pub open spec fn shown_worksheets(worksheets: Seq<Worksheet>) -> Seq<ShownWorksheet> {
    worksheets.map_values(|worksheet: Worksheet| shown_worksheet(worksheet))
}

impl View for ReldexWorksheetList {
    type V = Seq<ShownWorksheet>;

    closed spec fn view(&self) -> Seq<ShownWorksheet> {
        self.worksheets@.map_values(|worksheet: StoredWorksheet| worksheet@)
    }
}

impl ReldexWorksheetList {
    /// Takes worksheets across, counting the object that carries them.
    pub fn new(live: &mut LiveCounters, worksheets: &Vec<Worksheet>) -> (list: Self)
        ensures
            list@ == shown_worksheets(worksheets@),
            *final(live) == old(live).plus(Kind::WorkspaceObject),
    {
        live.created(Kind::WorkspaceObject);
        let mut stored: Vec<StoredWorksheet> = Vec::new();
        let mut index: usize = 0;
        while index < worksheets.len()
            invariant
                index <= worksheets@.len(),
                stored@.len() == index,
                forall|i: int|
                    0 <= i < index ==> (#[trigger] stored@[i])@ == shown_worksheet(worksheets@[i]),
            decreases worksheets@.len() - index,
        {
            stored.push(StoredWorksheet::from_worksheet(&worksheets[index]));
            index += 1;
        }
        let list = ReldexWorksheetList { worksheets: stored };
        assert(list@ =~= shown_worksheets(worksheets@));
        list
    }
}

/// How many worksheets there are.
pub fn reldex_worksheet_list_count(
    boundary: &mut Boundary,
    list: Option<&ReldexWorksheetList>,
) -> (count: usize)
    ensures
        old(boundary)@.in_waker ==> count == 0 && final(boundary)@ == old(boundary)@.refused(),
        !old(boundary)@.in_waker ==> {
            &&& count == match list {
                Some(list) => list@.len(),
                None => 0,
            }
            &&& final(boundary)@ == old(boundary)@
        },
{
    if boundary.refuse_reentrant() {
        return 0;
    }
    match list {
        Some(list) => list.worksheets.len(),
        None => 0,
    }
}

/// Shows worksheet `index`. `out` is how many bytes the caller's struct takes,
/// or nothing where it was refused. Nothing is shown where there is no such
/// worksheet or no place for it.
pub fn reldex_worksheet_list_get<'a>(
    boundary: &mut Boundary,
    list: Option<&'a ReldexWorksheetList>,
    index: usize,
    out: Option<u32>,
) -> (view: Option<ReldexWorksheetView<'a>>)
    ensures
        old(boundary)@.in_waker ==> view is None && final(boundary)@ == old(boundary)@.refused(),
        !old(boundary)@.in_waker ==> {
            &&& final(boundary)@ == old(boundary)@
            &&& match (list, out) {
                (Some(list), Some(valid)) => if index < list@.len() {
                    view matches Some(view) && view.struct_size == valid && view.shows(
                        list@[index as int],
                    )
                } else {
                    view is None
                },
                _ => view is None,
            }
        },
{
    if boundary.refuse_reentrant() {
        return None;
    }
    match (list, out) {
        (Some(list), Some(valid)) => if index < list.worksheets.len() {
            Some(list.worksheets[index].show(valid))
        } else {
            None
        },
        _ => None,
    }
}

/// Releases a list. Nothing to release is no failure; a refused call leaves the
/// list with the caller.
pub fn reldex_worksheet_list_release(
    boundary: &mut Boundary,
    list: Option<ReldexWorksheetList>,
) -> (kept: Option<ReldexWorksheetList>)
    ensures
        old(boundary)@.in_waker ==> kept == list && final(boundary)@ == old(boundary)@.refused(),
        !old(boundary)@.in_waker ==> kept is None && final(boundary)@ == if list is Some {
            old(boundary)@.minus(Kind::WorkspaceObject)
        } else {
            old(boundary)@
        },
{
    if boundary.refuse_reentrant() {
        return list;
    }
    if list.is_some() {
        boundary.live.destroyed(Kind::WorkspaceObject);
    }
    None
}

/// The sizes of the panes, in pixels.
#[derive(Debug, Clone, Copy)]
pub struct PaneSizes {
    pub object_browser_width: Option<u32>,
    pub result_pane_height: Option<u32>,
}

/// Where the window stood, in pixels.
#[derive(Debug, Clone, Copy)]
pub struct WindowGeometry {
    pub x: Option<i32>,
    pub y: Option<i32>,
    pub width: Option<u32>,
    pub height: Option<u32>,
    pub maximized: bool,
}

/// The workspace's layout. The ids are those of a worksheet and of a profile.
#[derive(Debug, Clone, Copy)]
pub struct Layout {
    pub active_worksheet: Option<[u8; 16]>,
    pub active_profile: Option<[u8; 16]>,
    pub panes: PaneSizes,
    pub window: WindowGeometry,
}

/// The workspace's layout, flat. A field whose `has_` flag is off is zero on the
/// way out and not read on the way in.
#[derive(Debug, Clone, Copy)]
pub struct ReldexLayout {
    pub has_active_worksheet: bool,
    /// The worksheet on top.
    pub active_worksheet: [u8; 16],
    pub has_active_profile: bool,
    /// The profile shown as active.
    pub active_profile: [u8; 16],
    pub has_object_browser_width: bool,
    pub object_browser_width: u32,
    pub has_result_pane_height: bool,
    pub result_pane_height: u32,
    /// For both coordinates.
    pub has_window_position: bool,
    pub window_x: i32,
    pub window_y: i32,
    /// For both dimensions.
    pub has_window_size: bool,
    pub window_width: u32,
    pub window_height: u32,
    pub window_maximized: bool,
}

/// A number, or zero where there is none.
pub open spec fn u32_or_zero(value: Option<u32>) -> u32 {
    match value {
        Some(value) => value,
        None => 0,
    }
}

/// A number, or zero where there is none.
pub open spec fn i32_or_zero(value: Option<i32>) -> i32 {
    match value {
        Some(value) => value,
        None => 0,
    }
}

/// A number, or zero where there is none.
fn u32_or_default(value: Option<u32>) -> (number: u32)
    ensures
        number == u32_or_zero(value),
{
    match value {
        Some(value) => value,
        None => 0,
    }
}

/// A number, or zero where there is none.
fn i32_or_default(value: Option<i32>) -> (number: i32)
    ensures
        number == i32_or_zero(value),
{
    match value {
        Some(value) => value,
        None => 0,
    }
}

/// A number, where there is one.
pub open spec fn where_set<T>(set: bool, value: T) -> Option<T> {
    if set {
        Some(value)
    } else {
        None
    }
}

/// A number, where there is one.
fn if_set<T>(set: bool, value: T) -> (number: Option<T>)
    ensures
        number == where_set(set, value),
{
    if set {
        Some(value)
    } else {
        None
    }
}

impl ReldexLayout {
    /// Whether this is `layout`, flattened.
    pub open spec fn flattens(self, layout: Layout) -> bool {
        &&& self.has_active_worksheet == (layout.active_worksheet is Some)
        &&& self.active_worksheet@ == id_bytes(layout.active_worksheet)
        &&& layout.active_worksheet matches Some(id) ==> self.active_worksheet == id
        &&& self.has_active_profile == (layout.active_profile is Some)
        &&& self.active_profile@ == id_bytes(layout.active_profile)
        &&& layout.active_profile matches Some(id) ==> self.active_profile == id
        &&& self.has_object_browser_width == (layout.panes.object_browser_width is Some)
        &&& self.object_browser_width == u32_or_zero(layout.panes.object_browser_width)
        &&& self.has_result_pane_height == (layout.panes.result_pane_height is Some)
        &&& self.result_pane_height == u32_or_zero(layout.panes.result_pane_height)
        &&& self.has_window_position == (layout.window.x is Some || layout.window.y is Some)
        &&& self.window_x == i32_or_zero(layout.window.x)
        &&& self.window_y == i32_or_zero(layout.window.y)
        &&& self.has_window_size == (layout.window.width is Some || layout.window.height is Some)
        &&& self.window_width == u32_or_zero(layout.window.width)
        &&& self.window_height == u32_or_zero(layout.window.height)
        &&& self.window_maximized == layout.window.maximized
    }

    /// A layout with nothing set.
    pub open spec fn nothing_saved() -> Layout {
        Layout {
            active_worksheet: None,
            active_profile: None,
            panes: PaneSizes { object_browser_width: None, result_pane_height: None },
            window: WindowGeometry { x: None, y: None, width: None, height: None, maximized: false },
        }
    }

    /// A layout, flattened.
    pub fn from_layout(layout: &Layout) -> (flat: Self)
        ensures
            flat.flattens(*layout),
    {
        ReldexLayout {
            has_active_worksheet: layout.active_worksheet.is_some(),
            active_worksheet: bytes_or_zero(layout.active_worksheet),
            has_active_profile: layout.active_profile.is_some(),
            active_profile: bytes_or_zero(layout.active_profile),
            has_object_browser_width: layout.panes.object_browser_width.is_some(),
            object_browser_width: u32_or_default(layout.panes.object_browser_width),
            has_result_pane_height: layout.panes.result_pane_height.is_some(),
            result_pane_height: u32_or_default(layout.panes.result_pane_height),
            has_window_position: layout.window.x.is_some() || layout.window.y.is_some(),
            window_x: i32_or_default(layout.window.x),
            window_y: i32_or_default(layout.window.y),
            has_window_size: layout.window.width.is_some() || layout.window.height.is_some(),
            window_width: u32_or_default(layout.window.width),
            window_height: u32_or_default(layout.window.height),
            window_maximized: layout.window.maximized,
        }
    }

    /// The layout these fields mean, with the ids as the store reads them.
    pub open spec fn meant(
        self,
        worksheet: Result<[u8; 16], String>,
        profile: Result<[u8; 16], String>,
    ) -> Result<Layout, Seq<char>> {
        if self.has_active_worksheet && worksheet is Err {
            Err("layout active_worksheet: "@ + worksheet->Err_0@)
        } else if self.has_active_profile && profile is Err {
            Err("layout active_profile: "@ + profile->Err_0@)
        } else {
            Ok(
                Layout {
                    active_worksheet: where_set(self.has_active_worksheet, worksheet->Ok_0),
                    active_profile: where_set(self.has_active_profile, profile->Ok_0),
                    panes: PaneSizes {
                        object_browser_width: where_set(
                            self.has_object_browser_width,
                            self.object_browser_width,
                        ),
                        result_pane_height: where_set(
                            self.has_result_pane_height,
                            self.result_pane_height,
                        ),
                    },
                    window: WindowGeometry {
                        x: where_set(self.has_window_position, self.window_x),
                        y: where_set(self.has_window_position, self.window_y),
                        width: where_set(self.has_window_size, self.window_width),
                        height: where_set(self.has_window_size, self.window_height),
                        maximized: self.window_maximized,
                    },
                },
            )
        }
    }

    /// The layout these fields mean. `worksheet` and `profile` are the two ids
    /// as the store reads them, or how it words that they are none; neither is
    /// looked at where its flag is off.
    pub fn to_layout(
        &self,
        worksheet: &Result<[u8; 16], String>,
        profile: &Result<[u8; 16], String>,
    ) -> (layout: Result<Layout, DbError>)
        ensures
            match layout {
                Ok(layout) => self.meant(*worksheet, *profile) == Ok::<_, Seq<char>>(layout),
                Err(error) => {
                    &&& self.meant(*worksheet, *profile) is Err
                    &&& error@ == ErrorModel::plain(
                        ReldexErrorKind::Configuration,
                        self.meant(*worksheet, *profile)->Err_0,
                    )
                },
            },
    {
        let mut active_worksheet: Option<[u8; 16]> = None;
        if self.has_active_worksheet {
            match worksheet {
                Ok(id) => {
                    active_worksheet = Some(*id);
                },
                Err(why) => return Err(worded("layout active_worksheet: ", why)),
            }
        }
        let mut active_profile: Option<[u8; 16]> = None;
        if self.has_active_profile {
            match profile {
                Ok(id) => {
                    active_profile = Some(*id);
                },
                Err(why) => return Err(worded("layout active_profile: ", why)),
            }
        }
        Ok(
            Layout {
                active_worksheet,
                active_profile,
                panes: PaneSizes {
                    object_browser_width: if_set(
                        self.has_object_browser_width,
                        self.object_browser_width,
                    ),
                    result_pane_height: if_set(self.has_result_pane_height, self.result_pane_height),
                },
                window: WindowGeometry {
                    x: if_set(self.has_window_position, self.window_x),
                    y: if_set(self.has_window_position, self.window_y),
                    width: if_set(self.has_window_size, self.window_width),
                    height: if_set(self.has_window_size, self.window_height),
                    maximized: self.window_maximized,
                },
            },
        )
    }
}

impl Default for ReldexLayout {
    fn default() -> (layout: Self)
        ensures
            layout.flattens(Self::nothing_saved()),
    {
        ReldexLayout {
            has_active_worksheet: false,
            active_worksheet: zero_id(),
            has_active_profile: false,
            active_profile: zero_id(),
            has_object_browser_width: false,
            object_browser_width: 0,
            has_result_pane_height: false,
            result_pane_height: 0,
            has_window_position: false,
            window_x: 0,
            window_y: 0,
            has_window_size: false,
            window_width: 0,
            window_height: 0,
            window_maximized: false,
        }
    }
}

/// A layout that is flattened and read back is the same layout, where its
/// position has both coordinates or none and its size both dimensions or none,
/// and the store reads the ids it wrote.
pub proof fn layout_round_trip(
    layout: Layout,
    flat: ReldexLayout,
    worksheet: Result<[u8; 16], String>,
    profile: Result<[u8; 16], String>,
)
    requires
        flat.flattens(layout),
        layout.active_worksheet matches Some(id) ==> worksheet == Ok::<_, String>(id),
        layout.active_profile matches Some(id) ==> profile == Ok::<_, String>(id),
        layout.window.x is Some <==> layout.window.y is Some,
        layout.window.width is Some <==> layout.window.height is Some,
    ensures
        flat.meant(worksheet, profile) == Ok::<_, Seq<char>>(layout),
{
}

/// The open worksheets are shown one by one, in the order they came in: the id,
/// the profile where there is one, title and text verbatim, the caret, the scroll
/// position, the place in the tab bar and the times.
pub proof fn a_worksheet_is_shown_as_it_was_kept(
    live: &mut LiveCounters,
    worksheets: Vec<Worksheet>,
    list: ReldexWorksheetList,
    boundary: &mut Boundary,
    index: usize,
    valid: u32,
    view: Option<ReldexWorksheetView<'_>>,
    count: usize,
)
    requires
        call_ensures(ReldexWorksheetList::new, (live, &worksheets), list),
        !old(boundary)@.in_waker,
        call_ensures(reldex_worksheet_list_count, (boundary, Some(&list)), count),
        call_ensures(reldex_worksheet_list_get, (boundary, Some(&list), index, Some(valid)), view),
    ensures
        count == worksheets@.len(),
        view is Some <==> index < worksheets@.len(),
        view matches Some(view) ==> {
            let kept = worksheets@[index as int];
            &&& view.struct_size == valid
            &&& view.id@ == kept.id@
            &&& view.has_profile <==> kept.profile is Some
            &&& kept.profile matches Some(profile) ==> view.profile_id@ == profile@
            &&& kept.profile is None ==> forall|i: int|
                0 <= i < 16 ==> #[trigger] view.profile_id@[i] == 0
            &&& view.title.text() == Some(kept.state.title@)
            &&& view.text.text() == Some(kept.state.text@)
            &&& view.caret == kept.state.caret
            &&& view.scroll == kept.state.scroll
            &&& view.tab_order == kept.tab_order
            &&& kept.created_at >= 0 ==> view.created_at == kept.created_at
            &&& kept.updated_at >= 0 ==> view.updated_at == kept.updated_at
        },
{
    if index < worksheets@.len() {
        assert(list@[index as int] == shown_worksheet(worksheets@[index as int]));
    }
}

/// A layout is shown field by field, each marked as there or not, and what is not
/// there is zero.
pub proof fn a_layout_is_shown_as_it_was_kept(layout: Layout, flat: ReldexLayout)
    requires
        call_ensures(ReldexLayout::from_layout, (&layout,), flat),
    ensures
        flat.has_active_worksheet <==> layout.active_worksheet is Some,
        layout.active_worksheet matches Some(id) ==> flat.active_worksheet@ == id@,
        flat.has_active_profile <==> layout.active_profile is Some,
        layout.active_profile matches Some(id) ==> flat.active_profile@ == id@,
        flat.has_object_browser_width <==> layout.panes.object_browser_width is Some,
        layout.panes.object_browser_width matches Some(width) ==> flat.object_browser_width
            == width,
        layout.panes.object_browser_width is None ==> flat.object_browser_width == 0,
        flat.has_result_pane_height <==> layout.panes.result_pane_height is Some,
        layout.panes.result_pane_height matches Some(height) ==> flat.result_pane_height == height,
        layout.panes.result_pane_height is None ==> flat.result_pane_height == 0,
        flat.has_window_position <==> layout.window.x is Some || layout.window.y is Some,
        layout.window.x matches Some(x) ==> flat.window_x == x,
        layout.window.y matches Some(y) ==> flat.window_y == y,
        flat.has_window_size <==> layout.window.width is Some || layout.window.height is Some,
        layout.window.width matches Some(width) ==> flat.window_width == width,
        layout.window.height matches Some(height) ==> flat.window_height == height,
        flat.window_maximized == layout.window.maximized,
{
}

/// A layout is saved as it was given: what is marked as there with its value, and
/// nothing else. An id that the store cannot read is refused, by the field it
/// stands in, exactly where that field is marked as there.
pub proof fn a_layout_is_meant_as_given(
    flat: ReldexLayout,
    worksheet: Result<[u8; 16], String>,
    profile: Result<[u8; 16], String>,
    layout: Result<Layout, DbError>,
)
    requires
        call_ensures(ReldexLayout::to_layout, (&flat, &worksheet, &profile), layout),
    ensures
        layout is Err <==> flat.has_active_worksheet && worksheet is Err || flat.has_active_profile
            && profile is Err,
        layout matches Err(error) ==> {
            &&& error@.kind == ReldexErrorKind::Configuration
            &&& flat.has_active_worksheet && worksheet is Err ==> error@.message
                == "layout active_worksheet: "@ + worksheet->Err_0@
            &&& !(flat.has_active_worksheet && worksheet is Err) ==> error@.message
                == "layout active_profile: "@ + profile->Err_0@
        },
        layout matches Ok(layout) ==> {
            &&& layout.active_worksheet is Some <==> flat.has_active_worksheet
            &&& layout.active_worksheet matches Some(id) ==> worksheet == Ok::<_, String>(id)
            &&& layout.active_profile is Some <==> flat.has_active_profile
            &&& layout.active_profile matches Some(id) ==> profile == Ok::<_, String>(id)
            &&& layout.panes.object_browser_width is Some <==> flat.has_object_browser_width
            &&& layout.panes.object_browser_width matches Some(width) ==> width
                == flat.object_browser_width
            &&& layout.panes.result_pane_height is Some <==> flat.has_result_pane_height
            &&& layout.panes.result_pane_height matches Some(height) ==> height
                == flat.result_pane_height
            &&& layout.window.x is Some <==> flat.has_window_position
            &&& layout.window.x matches Some(x) ==> x == flat.window_x
            &&& layout.window.y is Some <==> flat.has_window_position
            &&& layout.window.y matches Some(y) ==> y == flat.window_y
            &&& layout.window.width is Some <==> flat.has_window_size
            &&& layout.window.width matches Some(width) ==> width == flat.window_width
            &&& layout.window.height is Some <==> flat.has_window_size
            &&& layout.window.height matches Some(height) ==> height == flat.window_height
            &&& layout.window.maximized == flat.window_maximized
        },
{
}

/// A list is counted from when it is taken in until it is released; a refused
/// release leaves it with its caller.
pub proof fn a_list_is_counted_until_released(
    live: &mut LiveCounters,
    worksheets: Vec<Worksheet>,
    list: ReldexWorksheetList,
    boundary: &mut Boundary,
    kept: Option<ReldexWorksheetList>,
)
    requires
        call_ensures(ReldexWorksheetList::new, (live, &worksheets), list),
        call_ensures(reldex_worksheet_list_release, (boundary, Some(list)), kept),
    ensures
        *final(live) == (LiveCounters {
            misc_objects: next_count(old(live).misc_objects),
            ..*old(live)
        }),
        !old(boundary)@.in_waker ==> {
            &&& kept is None
            &&& old(boundary)@.live == *final(live) ==> final(boundary)@.live == *old(live)
            &&& final(boundary)@.last_error == old(boundary)@.last_error
        },
        old(boundary)@.in_waker ==> {
            &&& kept == Some(list)
            &&& final(boundary)@.live.misc_objects == old(boundary)@.live.misc_objects
        },
{
}

/// A layout that was never saved has nothing set.
pub proof fn a_fresh_layout_is_empty(layout: ReldexLayout)
    requires
        call_ensures(ReldexLayout::default, (), layout),
    ensures
        !layout.has_active_worksheet && !layout.has_active_profile,
        !layout.has_object_browser_width && !layout.has_result_pane_height,
        !layout.has_window_position && !layout.has_window_size && !layout.window_maximized,
        layout.object_browser_width == 0 && layout.result_pane_height == 0,
        layout.window_x == 0 && layout.window_y == 0,
        layout.window_width == 0 && layout.window_height == 0,
        forall|i: int| 0 <= i < 16 ==> #[trigger] layout.active_worksheet@[i] == 0,
        forall|i: int| 0 <= i < 16 ==> #[trigger] layout.active_profile@[i] == 0,
{
}

} // verus!
