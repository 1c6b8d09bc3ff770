//! Placement descriptions for the kitty graphics protocol and the decision procedure that turns
//! a batch of page images into a sequence of terminal actions.
use vstd::prelude::*;

use crate::image_id::dynamic_image_id;

pub use crate::dbg_writer::DbgWriter;
pub use crate::tmux::TmuxPassthroughWriter;

verus! {

/// Cell coordinates of the top-left cell of a placement on the terminal surface.
#[derive(Copy, Clone, PartialEq, Eq, Debug, Structural)]
pub struct Position {
    pub x: u16,
    pub y: u16,
}

/// How the cursor should act after an image is displayed.
#[derive(Copy, Clone, PartialEq, Eq, Debug, Structural)]
pub enum CursorMovementPolicy {
    /// Move to the cell directly following the last cell of the image (the protocol default).
    MoveToAfterImage,
    /// Leave the cursor where it is.
    DontMove,
}

/// Which part of an image is displayed and over which cells.
#[derive(Copy, Clone, PartialEq, Eq, Debug, Structural)]
pub struct DisplayLocation {
    pub x: u32,
    pub y: u32,
    pub width: u32,
    pub height: u32,
    pub x_offset: usize,
    pub y_offset: usize,
    /// Number of columns the image is displayed over (0: chosen by the terminal).
    pub columns: u16,
    /// Number of rows the image is displayed over (0: chosen by the terminal).
    pub rows: u16,
    pub z_index: i32,
    pub horizontal_offset: i32,
    pub vertical_offset: i32,
}

/// How one image is placed on the terminal surface.
#[derive(Copy, Clone, PartialEq, Eq, Debug, Structural)]
pub struct DisplayConfig {
    pub location: DisplayLocation,
    pub cursor_movement: CursorMovementPolicy,
    /// Whether a virtual placement for unicode placeholders is created.
    pub create_virtual_placement: bool,
    pub parent_id: Option<u32>,
    pub parent_placement: Option<u32>,
}

/// The all-zero location: the whole image, placed by the terminal.
pub open spec fn default_location() -> DisplayLocation {
    DisplayLocation {
        x: 0,
        y: 0,
        width: 0,
        height: 0,
        x_offset: 0,
        y_offset: 0,
        columns: 0,
        rows: 0,
        z_index: 0,
        horizontal_offset: 0,
        vertical_offset: 0,
    }
}

/// The protocol's default placement.
pub open spec fn default_config() -> DisplayConfig {
    DisplayConfig {
        location: default_location(),
        cursor_movement: CursorMovementPolicy::MoveToAfterImage,
        create_virtual_placement: false,
        parent_id: None,
        parent_placement: None,
    }
}

impl Default for DisplayLocation {
    fn default() -> (r: Self)
        ensures
            r == default_location(),
    {
        DisplayLocation {
            x: 0,
            y: 0,
            width: 0,
            height: 0,
            x_offset: 0,
            y_offset: 0,
            columns: 0,
            rows: 0,
            z_index: 0,
            horizontal_offset: 0,
            vertical_offset: 0,
        }
    }
}

impl Default for DisplayConfig {
    fn default() -> (r: Self)
        ensures
            r == default_config(),
    {
        DisplayConfig {
            location: DisplayLocation::default(),
            cursor_movement: CursorMovementPolicy::MoveToAfterImage,
            create_virtual_placement: false,
            parent_id: None,
            parent_placement: None,
        }
    }
}

/// The placement used under tmux: a virtual placement for unicode placeholders that leaves the
/// cursor alone, spanning the given cells wherever the location leaves its extent open.
pub open spec fn tmux_config_spec(loc: DisplayLocation, cell_w: u16, cell_h: u16) -> DisplayConfig {
    DisplayConfig {
        location: DisplayLocation {
            columns: if loc.columns == 0 { cell_w } else { loc.columns },
            rows: if loc.rows == 0 { cell_h } else { loc.rows },
            ..loc
        },
        cursor_movement: CursorMovementPolicy::DontMove,
        create_virtual_placement: true,
        parent_id: None,
        parent_placement: None,
    }
}

/// The placement used directly in kitty: the given location, leaving the cursor alone.
pub open spec fn direct_config_spec(loc: DisplayLocation) -> DisplayConfig {
    DisplayConfig {
        location: loc,
        cursor_movement: CursorMovementPolicy::DontMove,
        ..default_config()
    }
}

/// Under tmux the placement spans the placeholder cells wherever the location leaves its extent
/// open: the columns are `cell_w` exactly when the location's columns are 0, and the rows are
/// `cell_h` exactly when its rows are 0, each independently of the other; everything else of
/// the location is kept, and the placement is virtual and leaves the cursor alone.
pub proof fn lemma_tmux_placement_extent(loc: DisplayLocation, cell_w: u16, cell_h: u16)
    ensures
        tmux_config_spec(loc, cell_w, cell_h).location.columns == if loc.columns == 0 {
            cell_w
        } else {
            loc.columns
        },
        tmux_config_spec(loc, cell_w, cell_h).location.rows == if loc.rows == 0 {
            cell_h
        } else {
            loc.rows
        },
        tmux_config_spec(loc, cell_w, cell_h).location.x == loc.x,
        tmux_config_spec(loc, cell_w, cell_h).location.y == loc.y,
        tmux_config_spec(loc, cell_w, cell_h).location.width == loc.width,
        tmux_config_spec(loc, cell_w, cell_h).location.height == loc.height,
        tmux_config_spec(loc, cell_w, cell_h).location.z_index == loc.z_index,
        tmux_config_spec(loc, cell_w, cell_h).cursor_movement == CursorMovementPolicy::DontMove,
        tmux_config_spec(loc, cell_w, cell_h).create_virtual_placement,
        direct_config_spec(loc).location == loc,
        direct_config_spec(loc).cursor_movement == CursorMovementPolicy::DontMove,
        !direct_config_spec(loc).create_virtual_placement,
{
}

/// Builds the placement for an image shown through tmux unicode placeholders.
pub fn tmux_display_config(display_loc: DisplayLocation, cell_w: u16, cell_h: u16) -> (config:
    DisplayConfig)
    ensures
        config == tmux_config_spec(display_loc, cell_w, cell_h),
        config.location.columns == if display_loc.columns == 0 {
            cell_w
        } else {
            display_loc.columns
        },
        config.location.rows == if display_loc.rows == 0 {
            cell_h
        } else {
            display_loc.rows
        },
        config.location == (DisplayLocation {
            columns: config.location.columns,
            rows: config.location.rows,
            ..display_loc
        }),
        config.cursor_movement == CursorMovementPolicy::DontMove,
        config.create_virtual_placement,
        config.parent_id is None,
        config.parent_placement is None,
{
    let mut config = DisplayConfig {
        location: display_loc,
        cursor_movement: CursorMovementPolicy::DontMove,
        create_virtual_placement: true,
        ..DisplayConfig::default()
    };
    if config.location.columns == 0 {
        config.location.columns = cell_w;
    }
    if config.location.rows == 0 {
        config.location.rows = cell_h;
    }
    config
}

/// Builds the placement for an image shown directly in kitty.
pub fn direct_display_config(display_loc: DisplayLocation) -> (config: DisplayConfig)
    ensures
        config == direct_config_spec(display_loc),
        config.location == display_loc,
        config.cursor_movement == CursorMovementPolicy::DontMove,
        !config.create_virtual_placement,
        config.parent_id is None,
        config.parent_placement is None,
{
    DisplayConfig {
        location: display_loc,
        cursor_movement: CursorMovementPolicy::DontMove,
        ..DisplayConfig::default()
    }
}

/// How an image is referred to when it is first transmitted.
#[derive(Copy, Clone, PartialEq, Eq, Debug, Structural)]
pub enum NumberOrId {
    Number(u32),
    Id(u32),
}

impl NumberOrId {
    pub open spec fn value(self) -> u32 {
        match self {
            NumberOrId::Number(n) => n,
            NumberOrId::Id(id) => id,
        }
    }

    /// The number or id itself, whichever it is.
    pub fn get(&self) -> (v: u32)
        ensures
            v == self.value(),
    {
        match self {
            NumberOrId::Number(n) => *n,
            NumberOrId::Id(id) => *id,
        }
    }
}

/// A cached page image: either still to be sent to the terminal, or already there under an id.
#[derive(Copy, Clone, PartialEq, Eq, Debug, Structural)]
pub enum MaybeTransferred {
    NotYet(NumberOrId),
    Transferred(u32),
}

/// The image of one placement: a cached page, or a one-off image (only shown under tmux).
#[derive(Copy, Clone, PartialEq, Eq, Debug, Structural)]
pub enum KittyImage {
    Cached(MaybeTransferred),
    Dynamic,
}

/// One image ready to be placed on the terminal.
#[derive(Copy, Clone, PartialEq, Eq, Debug, Structural)]
pub struct KittyReadyToDisplay {
    pub img: KittyImage,
    pub page_num: usize,
    pub pos: Position,
    pub display_loc: DisplayLocation,
    pub cell_w: u16,
    pub cell_h: u16,
}

/// What should happen to the images on the terminal.
#[derive(Debug)]
pub enum KittyDisplay {
    NoChange,
    ClearImages,
    DisplayImages(Vec<KittyReadyToDisplay>),
}

/// What the caller must do next on behalf of a [`KittyDisplayRun`].
#[derive(Copy, Clone, PartialEq, Eq, Debug, Structural)]
pub enum KittyAction {
    /// Clear every image placement on the terminal, and report the outcome.
    ClearAll,
    /// Transmit the not-yet-transferred image of item `index` and display it; report the id the
    /// terminal gives it. `at`: move the cursor there first.
    TransmitAndDisplay {
        index: usize,
        config: DisplayConfig,
        placement_id: Option<u32>,
        at: Option<Position>,
    },
    /// Display the already-transferred image `image_id` of item `index` (placement id
    /// `image_id` too); report the outcome.
    Display { index: usize, image_id: u32, config: DisplayConfig, at: Option<Position> },
    /// Encode the one-off image of item `index` as PNG and send it under id and placement id
    /// `image_id` without waiting for a reply; report the outcome.
    TransmitDynamic { index: usize, image_id: u32, config: DisplayConfig },
    /// Write the unicode placeholder cells of image `image_id` at `pos`.
    Placeholders { image_id: u32, pos: Position, cell_w: u16, cell_h: u16 },
    /// Nothing is left to do; the outcome is in [`KittyDisplayRun::into_result`].
    Finished,
}

/// Where a [`KittyDisplayRun`] stands.
#[derive(Copy, Clone, PartialEq, Eq, Debug, Structural)]
pub enum RunStage {
    AwaitClear,
    AwaitImage,
    AwaitPlaceholders(u32),
    Done,
}

pub open spec fn item_config(item: KittyReadyToDisplay, tmux: bool) -> DisplayConfig {
    if tmux {
        tmux_config_spec(item.display_loc, item.cell_w, item.cell_h)
    } else {
        direct_config_spec(item.display_loc)
    }
}

/// The action that shows item `index`.
pub open spec fn item_action(item: KittyReadyToDisplay, index: usize, tmux: bool, id_base: u32)
    -> KittyAction {
    let config = item_config(item, tmux);
    let at = if tmux {
        None
    } else {
        Some(item.pos)
    };
    match item.img {
        KittyImage::Cached(MaybeTransferred::NotYet(n)) => KittyAction::TransmitAndDisplay {
            index,
            config,
            placement_id: if tmux {
                Some(n.value())
            } else {
                None
            },
            at,
        },
        KittyImage::Cached(MaybeTransferred::Transferred(id)) => KittyAction::Display {
            index,
            image_id: id,
            config,
            at,
        },
        KittyImage::Dynamic => KittyAction::TransmitDynamic {
            index,
            image_id: crate::image_id::dynamic_image_id_spec(id_base, item.page_num),
            config,
        },
    }
}

/// The id under which an item's image is shown once its action succeeded with `returned`.
pub open spec fn shown_image_id(item: KittyReadyToDisplay, returned: u32, id_base: u32) -> u32 {
    match item.img {
        KittyImage::Cached(MaybeTransferred::NotYet(_)) => returned,
        KittyImage::Cached(MaybeTransferred::Transferred(id)) => id,
        KittyImage::Dynamic => crate::image_id::dynamic_image_id_spec(id_base, item.page_num),
    }
}

/// The item as it stands after its action succeeded with `returned`.
pub open spec fn after_success(item: KittyReadyToDisplay, returned: u32) -> KittyReadyToDisplay {
    match item.img {
        KittyImage::Cached(MaybeTransferred::NotYet(_)) => KittyReadyToDisplay {
            img: KittyImage::Cached(MaybeTransferred::Transferred(returned)),
            ..item
        },
        _ => item,
    }
}

/// Page numbers of the items whose action failed, in the order the actions were made
/// (`history[k]` is the outcome of item `k`: `Some` error, or `None`).
pub open spec fn failed_pages_of<E>(items: Seq<KittyReadyToDisplay>, history: Seq<Option<E>>) -> Seq<
    usize,
>
    decreases history.len(),
{
    if history.len() == 0 {
        seq![]
    } else {
        let k = history.len() - 1;
        let prev = failed_pages_of(items, history.drop_last());
        if history[k] is Some {
            prev.push(items[k].page_num)
        } else {
            prev
        }
    }
}

/// The earliest error in `history`.
pub open spec fn first_failure<E>(history: Seq<Option<E>>) -> Option<E>
    decreases history.len(),
{
    if history.len() == 0 {
        None
    } else {
        let prev = first_failure(history.drop_last());
        if prev is Some {
            prev
        } else {
            history.last()
        }
    }
}

/// Whether a batch can be shown in the given mode: one-off images exist only under tmux.
pub open spec fn display_supported(display: KittyDisplay, tmux: bool) -> bool {
    display matches KittyDisplay::DisplayImages(items) ==> (!tmux ==> forall|i: int|
        0 <= i < items@.len() ==> !(#[trigger] items@[i].img is Dynamic))
}

pub open spec fn display_items(display: KittyDisplay) -> Seq<KittyReadyToDisplay> {
    match display {
        KittyDisplay::DisplayImages(items) => items@,
        _ => seq![],
    }
}

/// Message of a failure to clear the previous images.
pub open spec fn clear_failure_message() -> Seq<char> {
    "Couldn't clear previous images"@
}

/// Message of a failure to show one or more images.
pub open spec fn transfer_failure_message() -> Seq<char> {
    "Couldn't transfer image to the terminal"@
}

proof fn lemma_failed_pages_same_pages<E>(
    a: Seq<KittyReadyToDisplay>,
    b: Seq<KittyReadyToDisplay>,
    history: Seq<Option<E>>,
)
    requires
        history.len() <= a.len(),
        history.len() <= b.len(),
        forall|k: int| 0 <= k < history.len() ==> a[k].page_num == b[k].page_num,
    ensures
        failed_pages_of(a, history) == failed_pages_of(b, history),
    decreases history.len(),
{
    if history.len() > 0 {
        lemma_failed_pages_same_pages(a, b, history.drop_last());
    }
}

/// The action for an item concerns that item only: its index, its own placement (the tmux
/// placement under tmux, the direct one otherwise), its cursor position when shown directly;
/// a not-yet-sent image is transmitted (under tmux with its own number or id as placement id),
/// a transferred one is displayed under the id the terminal gave it, and a one-off image is sent
/// under the base plus its page number.
pub proof fn lemma_item_action_shape(item: KittyReadyToDisplay, index: usize, tmux: bool, id_base: u32)
    ensures
        item.img matches KittyImage::Cached(MaybeTransferred::NotYet(n)) ==> item_action(
            item,
            index,
            tmux,
            id_base,
        ) == (KittyAction::TransmitAndDisplay {
            index,
            config: if tmux {
                tmux_config_spec(item.display_loc, item.cell_w, item.cell_h)
            } else {
                direct_config_spec(item.display_loc)
            },
            placement_id: if tmux {
                Some(n.value())
            } else {
                None
            },
            at: if tmux {
                None
            } else {
                Some(item.pos)
            },
        }),
        item.img matches KittyImage::Cached(MaybeTransferred::Transferred(t)) ==> item_action(
            item,
            index,
            tmux,
            id_base,
        ) == (KittyAction::Display {
            index,
            image_id: t,
            config: if tmux {
                tmux_config_spec(item.display_loc, item.cell_w, item.cell_h)
            } else {
                direct_config_spec(item.display_loc)
            },
            at: if tmux {
                None
            } else {
                Some(item.pos)
            },
        }),
        item.img is Dynamic ==> item_action(item, index, tmux, id_base) == (
        KittyAction::TransmitDynamic {
            index,
            image_id: if id_base + (item.page_num as u32) > u32::MAX {
                u32::MAX
            } else {
                (id_base + (item.page_num as u32)) as u32
            },
            config: if tmux {
                tmux_config_spec(item.display_loc, item.cell_w, item.cell_h)
            } else {
                direct_config_spec(item.display_loc)
            },
        }),
{
}

/// Reporting an outcome extends the failure record: a failure appends the page number of the
/// item it concerns, a success leaves it alone.
pub proof fn lemma_failed_pages_step<E>(
    items: Seq<KittyReadyToDisplay>,
    history: Seq<Option<E>>,
    outcome: Option<E>,
)
    ensures
        failed_pages_of(items, Seq::<Option<E>>::empty()) == Seq::<usize>::empty(),
        outcome is Some ==> failed_pages_of(items, history.push(outcome)) == failed_pages_of(
            items,
            history,
        ).push(items[history.len() as int].page_num),
        outcome is None ==> failed_pages_of(items, history.push(outcome)) == failed_pages_of(
            items,
            history,
        ),
{
    assert(history.push(outcome).drop_last() =~= history);
}

/// The error reported for a batch is the earliest one: it is the error at some position of the
/// history, and every outcome before that position succeeded; with no error there is none.
pub proof fn lemma_first_failure_is_earliest<E>(history: Seq<Option<E>>)
    ensures
        first_failure(history) is None <==> forall|i: int|
            0 <= i < history.len() ==> #[trigger] history[i] is None,
        first_failure(history) is Some ==> exists|i: int|
            0 <= i < history.len() && history[i] == first_failure(history) && forall|j: int|
                0 <= j < i ==> #[trigger] history[j] is None,
    decreases history.len(),
{
    if history.len() > 0 {
        let prev = history.drop_last();
        lemma_first_failure_is_earliest(prev);
        let k = history.len() - 1;
        if first_failure(prev) is Some {
            let i = choose|i: int|
                0 <= i < prev.len() && prev[i] == first_failure(prev) && forall|j: int|
                    0 <= j < i ==> #[trigger] prev[j] is None;
            assert(history[i] == prev[i]);
            assert forall|j: int| 0 <= j < i implies #[trigger] history[j] is None by {
                assert(history[j] == prev[j]);
            }
            assert(!(history[i] is None));
        } else {
            assert forall|j: int| 0 <= j < k implies #[trigger] history[j] is None by {
                assert(history[j] == prev[j]);
            }
            if history[k] is Some {
                assert(history[k] == first_failure(history));
            } else {
                assert forall|i: int| 0 <= i < history.len() implies #[trigger] history[i] is None by {
                    if i < k {
                        assert(history[i] == prev[i]);
                    }
                }
            }
        }
    }
}

/// An image transferred by one run is shown by the next one from the terminal's copy: its
/// action becomes a display of the id the terminal gave it, with the same placement.
pub proof fn lemma_transferred_image_is_redisplayed(
    item: KittyReadyToDisplay,
    returned: u32,
    index: usize,
    tmux: bool,
    id_base: u32,
)
    requires
        item.img matches KittyImage::Cached(MaybeTransferred::NotYet(_)),
    ensures
        item_action(after_success(item, returned), index, tmux, id_base) == (KittyAction::Display {
            index,
            image_id: returned,
            config: item_config(item, tmux),
            at: if tmux {
                None
            } else {
                Some(item.pos)
            },
        }),
{
}

/// Drives the display of a batch of images: each call is handed the outcome of the previous
/// action and answers with the next one, until [`KittyAction::Finished`].
pub struct KittyDisplayRun<E> {
    items: Vec<KittyReadyToDisplay>,
    tmux: bool,
    id_base: u32,
    next: usize,
    stage: RunStage,
    failed_pages: Vec<usize>,
    first_error: Option<E>,
    clear_failed: bool,
    history: Ghost<Seq<Option<E>>>,
}

impl<E> KittyDisplayRun<E> {
    /// The items, with their states as updated so far.
    pub closed spec fn items(&self) -> Seq<KittyReadyToDisplay> {
        self.items@
    }

    /// Whether the images are shown through tmux.
    pub closed spec fn tmux(&self) -> bool {
        self.tmux
    }

    pub closed spec fn id_base(&self) -> u32 {
        self.id_base
    }

    /// Number of items whose outcome has been reported.
    pub closed spec fn next(&self) -> nat {
        self.next as nat
    }

    pub closed spec fn stage(&self) -> RunStage {
        self.stage
    }

    /// The outcomes reported for the items so far, in order.
    pub closed spec fn history(&self) -> Seq<Option<E>> {
        self.history@
    }

    /// Whether clearing the previous images failed.
    pub closed spec fn clear_failed(&self) -> bool {
        self.clear_failed
    }

    pub closed spec fn failed_pages(&self) -> Seq<usize> {
        self.failed_pages@
    }

    pub closed spec fn first_error(&self) -> Option<E> {
        self.first_error
    }

    /// How many more reports the run takes at most before it is finished.
    pub open spec fn remaining(&self) -> nat {
        let n = (self.items().len() - self.next()) as nat;
        match self.stage() {
            RunStage::AwaitClear => 2 * n + 1,
            RunStage::AwaitImage => 2 * n,
            RunStage::AwaitPlaceholders(_) => 2 * n + 1,
            RunStage::Done => 0,
        }
    }

    pub closed spec fn wf(&self) -> bool {
        &&& self.next <= self.items@.len()
        &&& self.id_base != 0
        &&& !self.tmux ==> forall|i: int|
            0 <= i < self.items@.len() ==> !(#[trigger] self.items@[i].img is Dynamic)
        &&& self.history@.len() == self.next
        &&& self.failed_pages@ == failed_pages_of(self.items@, self.history@)
        &&& self.clear_failed ==> {
            &&& self.next == 0
            &&& self.first_error is Some
            &&& self.stage == RunStage::Done
        }
        &&& !self.clear_failed ==> self.first_error == first_failure(self.history@)
        &&& self.stage == RunStage::AwaitClear ==> self.next == 0 && !self.tmux
        &&& self.stage == RunStage::AwaitImage ==> self.next < self.items@.len()
        &&& self.stage is AwaitPlaceholders ==> {
            &&& self.tmux
            &&& self.next >= 1
            &&& self.history@.last() is None
        }
        &&& self.stage == RunStage::Done ==> (self.next == self.items@.len() || self.clear_failed)
    }

    /// The action the run is waiting on.
    pub open spec fn pending(&self) -> KittyAction {
        match self.stage() {
            RunStage::AwaitClear => KittyAction::ClearAll,
            RunStage::AwaitImage => item_action(
                self.items()[self.next() as int],
                self.next() as usize,
                self.tmux(),
                self.id_base(),
            ),
            RunStage::AwaitPlaceholders(id) => {
                let item = self.items()[self.next() - 1];
                KittyAction::Placeholders {
                    image_id: id,
                    pos: item.pos,
                    cell_w: item.cell_w,
                    cell_h: item.cell_h,
                }
            },
            RunStage::Done => KittyAction::Finished,
        }
    }

    /// The stage reached once `next` items have been handled.
    pub open spec fn stage_after(next: nat, len: nat) -> RunStage {
        if next < len {
            RunStage::AwaitImage
        } else {
            RunStage::Done
        }
    }

    fn current_action(&self) -> (action: KittyAction)
        requires
            self.wf(),
        ensures
            action == self.pending(),
    {
        match self.stage {
            RunStage::AwaitClear => KittyAction::ClearAll,
            RunStage::AwaitImage => {
                let item = self.items[self.next];
                let config = if self.tmux {
                    tmux_display_config(item.display_loc, item.cell_w, item.cell_h)
                } else {
                    direct_display_config(item.display_loc)
                };
                let at = if self.tmux {
                    None
                } else {
                    Some(item.pos)
                };
                match item.img {
                    KittyImage::Cached(MaybeTransferred::NotYet(n)) => {
                        let placement_id = if self.tmux {
                            Some(n.get())
                        } else {
                            None
                        };
                        KittyAction::TransmitAndDisplay { index: self.next, config, placement_id, at }
                    },
                    KittyImage::Cached(MaybeTransferred::Transferred(id)) => {
                        KittyAction::Display { index: self.next, image_id: id, config, at }
                    },
                    KittyImage::Dynamic => {
                        let image_id = dynamic_image_id(self.id_base, item.page_num);
                        KittyAction::TransmitDynamic { index: self.next, image_id, config }
                    },
                }
            },
            RunStage::AwaitPlaceholders(id) => {
                let item = self.items[self.next - 1];
                KittyAction::Placeholders {
                    image_id: id,
                    pos: item.pos,
                    cell_w: item.cell_w,
                    cell_h: item.cell_h,
                }
            },
            RunStage::Done => KittyAction::Finished,
        }
    }

    /// Starts showing `display`; `tmux_offset` is `Some` when the terminal is reached through
    /// tmux, and `id_base` is the first id free for one-off images.
    pub fn start(display: KittyDisplay, tmux_offset: Option<(u16, u16)>, id_base: u32) -> (res: (
        Self,
        KittyAction,
    ))
        requires
            id_base != 0,
            display_supported(display, tmux_offset is Some),
        ensures
            res.0.wf(),
            res.1 == res.0.pending(),
            res.0.tmux() == tmux_offset is Some,
            res.0.id_base() == id_base,
            res.0.next() == 0,
            res.0.history() == Seq::<Option<E>>::empty(),
            !res.0.clear_failed(),
            res.0.items() == display_items(display),
            display is NoChange ==> res.0.stage() == RunStage::Done,
            !(display is NoChange) && tmux_offset is None ==> res.0.stage() == RunStage::AwaitClear,
            !(display is NoChange) && tmux_offset is Some ==> res.0.stage() == Self::stage_after(
                0,
                display_items(display).len(),
            ),
            res.1 == if display is NoChange {
                KittyAction::Finished
            } else if tmux_offset is None {
                KittyAction::ClearAll
            } else if display_items(display).len() > 0 {
                item_action(display_items(display)[0], 0, true, id_base)
            } else {
                KittyAction::Finished
            },
    {
        let tmux = tmux_offset.is_some();
        let (items, stage) = match display {
            KittyDisplay::NoChange => (Vec::new(), RunStage::Done),
            KittyDisplay::ClearImages => {
                let stage = if tmux {
                    RunStage::Done
                } else {
                    RunStage::AwaitClear
                };
                (Vec::new(), stage)
            },
            KittyDisplay::DisplayImages(items) => {
                let stage = if !tmux {
                    RunStage::AwaitClear
                } else if items.len() > 0 {
                    RunStage::AwaitImage
                } else {
                    RunStage::Done
                };
                (items, stage)
            },
        };
        let run = KittyDisplayRun {
            items,
            tmux,
            id_base,
            next: 0,
            stage,
            failed_pages: Vec::new(),
            first_error: None,
            clear_failed: false,
            history: Ghost(Seq::empty()),
        };
        proof {
            assert(run.history@.len() == 0);
            assert(run.failed_pages@ =~= failed_pages_of(run.items@, run.history@));
        }
        let action = run.current_action();
        (run, action)
    }

    /// Reports the outcome of [`KittyAction::ClearAll`]. A failure ends the run.
    pub fn after_clear(&mut self, outcome: Result<(), E>) -> (action: KittyAction)
        requires
            old(self).wf(),
            old(self).stage() == RunStage::AwaitClear,
        ensures
            final(self).wf(),
            action == final(self).pending(),
            final(self).remaining() < old(self).remaining(),
            final(self).items() == old(self).items(),
            final(self).tmux() == old(self).tmux(),
            final(self).id_base() == old(self).id_base(),
            final(self).history() == old(self).history(),
            final(self).next() == old(self).next(),
            match outcome {
                Ok(()) => {
                    &&& !final(self).clear_failed()
                    &&& final(self).stage() == Self::stage_after(0, old(self).items().len())
                },
                Err(e) => {
                    &&& final(self).clear_failed()
                    &&& final(self).first_error() == Some(e)
                    &&& final(self).stage() == RunStage::Done
                },
            },
            action == if outcome is Ok && old(self).items().len() > 0 {
                item_action(old(self).items()[0], 0, false, old(self).id_base())
            } else {
                KittyAction::Finished
            },
    {
        match outcome {
            Ok(()) => {
                if self.items.len() > 0 {
                    self.stage = RunStage::AwaitImage;
                } else {
                    self.stage = RunStage::Done;
                }
            },
            Err(e) => {
                self.first_error = Some(e);
                self.clear_failed = true;
                self.stage = RunStage::Done;
            },
        }
        self.current_action()
    }

    /// Reports the outcome of the action on the current item: the id the terminal answered
    /// with, or the error. (For [`KittyAction::Display`] and [`KittyAction::TransmitDynamic`]
    /// the id is not used.)
    pub fn after_image(&mut self, outcome: Result<u32, E>) -> (action: KittyAction)
        requires
            old(self).wf(),
            old(self).stage() == RunStage::AwaitImage,
        ensures
            final(self).wf(),
            action == final(self).pending(),
            final(self).remaining() < old(self).remaining(),
            final(self).tmux() == old(self).tmux(),
            final(self).id_base() == old(self).id_base(),
            final(self).next() == old(self).next() + 1,
            !final(self).clear_failed(),
            ({
                let i = old(self).next() as int;
                let item = old(self).items()[i];
                match outcome {
                    Ok(id) => {
                        &&& final(self).items() == old(self).items().update(
                            i,
                            after_success(item, id),
                        )
                        &&& final(self).history() == old(self).history().push(None)
                        &&& final(self).failed_pages() == old(self).failed_pages()
                        &&& final(self).first_error() == old(self).first_error()
                        &&& final(self).stage() == if old(self).tmux() {
                            RunStage::AwaitPlaceholders(
                                shown_image_id(item, id, old(self).id_base()),
                            )
                        } else {
                            Self::stage_after(i as nat + 1, old(self).items().len())
                        }
                    },
                    Err(e) => {
                        &&& final(self).items() == old(self).items()
                        &&& final(self).history() == old(self).history().push(Some(e))
                        &&& final(self).failed_pages() == old(self).failed_pages().push(
                            item.page_num,
                        )
                        &&& final(self).first_error() == if old(self).first_error() is Some {
                            old(self).first_error()
                        } else {
                            Some(e)
                        }
                        &&& final(self).stage() == Self::stage_after(
                            i as nat + 1,
                            old(self).items().len(),
                        )
                    },
                }
            }),
            ({
                let i = old(self).next() as int;
                let item = old(self).items()[i];
                match outcome {
                    Ok(id) => old(self).tmux() ==> action == (KittyAction::Placeholders {
                        image_id: match item.img {
                            KittyImage::Cached(MaybeTransferred::NotYet(_)) => id,
                            KittyImage::Cached(MaybeTransferred::Transferred(t)) => t,
                            KittyImage::Dynamic => crate::image_id::dynamic_image_id_spec(
                                old(self).id_base(),
                                item.page_num,
                            ),
                        },
                        pos: item.pos,
                        cell_w: item.cell_w,
                        cell_h: item.cell_h,
                    }),
                    Err(_) => true,
                }
            }),
            ({
                let i = old(self).next() as int;
                (outcome is Err || !old(self).tmux()) ==> action == if i + 1 < old(
                    self,
                ).items().len() {
                    item_action(
                        old(self).items()[i + 1],
                        (i + 1) as usize,
                        old(self).tmux(),
                        old(self).id_base(),
                    )
                } else {
                    KittyAction::Finished
                }
            }),
    {
        let i = self.next;
        let item = self.items[i];
        assert(i < self.items.len());
        let ghost old_items = self.items@;
        let ghost old_history = self.history@;
        match outcome {
            Ok(id) => {
                let shown = match item.img {
                    KittyImage::Cached(MaybeTransferred::NotYet(_)) => {
                        let updated = KittyReadyToDisplay {
                            img: KittyImage::Cached(MaybeTransferred::Transferred(id)),
                            ..item
                        };
                        self.items.set(i, updated);
                        id
                    },
                    KittyImage::Cached(MaybeTransferred::Transferred(t)) => t,
                    KittyImage::Dynamic => dynamic_image_id(self.id_base, item.page_num),
                };
                self.history = Ghost(old_history.push(None));
                self.next = i + 1;
                if self.tmux {
                    self.stage = RunStage::AwaitPlaceholders(shown);
                } else if i + 1 < self.items.len() {
                    self.stage = RunStage::AwaitImage;
                } else {
                    self.stage = RunStage::Done;
                }
                proof {
                    assert(self.items@ == old_items.update(i as int, after_success(item, id)));
                    assert(self.history@.drop_last() == old_history);
                    lemma_failed_pages_same_pages(old_items, self.items@, old_history);
                    assert(first_failure(self.history@) == first_failure(old_history));
                }
            },
            Err(e) => {
                self.failed_pages.push(item.page_num);
                self.history = Ghost(old_history.push(Some(e)));
                if self.first_error.is_none() {
                    self.first_error = Some(e);
                }
                self.next = i + 1;
                if i + 1 < self.items.len() {
                    self.stage = RunStage::AwaitImage;
                } else {
                    self.stage = RunStage::Done;
                }
                proof {
                    assert(self.history@.drop_last() == old_history);
                }
            },
        }
        self.current_action()
    }

    /// Reports that the placeholder cells were written.
    pub fn after_placeholders(&mut self) -> (action: KittyAction)
        requires
            old(self).wf(),
            old(self).stage() is AwaitPlaceholders,
        ensures
            final(self).wf(),
            action == final(self).pending(),
            final(self).remaining() < old(self).remaining(),
            final(self).items() == old(self).items(),
            final(self).tmux() == old(self).tmux(),
            final(self).id_base() == old(self).id_base(),
            final(self).next() == old(self).next(),
            final(self).history() == old(self).history(),
            final(self).failed_pages() == old(self).failed_pages(),
            final(self).first_error() == old(self).first_error(),
            final(self).clear_failed() == old(self).clear_failed(),
            final(self).stage() == Self::stage_after(old(self).next(), old(self).items().len()),
            action == if old(self).next() < old(self).items().len() {
                item_action(
                    old(self).items()[old(self).next() as int],
                    old(self).next() as usize,
                    old(self).tmux(),
                    old(self).id_base(),
                )
            } else {
                KittyAction::Finished
            },
    {
        if self.next < self.items.len() {
            self.stage = RunStage::AwaitImage;
        } else {
            self.stage = RunStage::Done;
        }
        self.current_action()
    }

    /// The items with their states as updated by the run (transferred images carry the id the
    /// terminal gave them).
    pub fn items_ref(&self) -> (items: &Vec<KittyReadyToDisplay>)
        ensures
            items@ == self.items(),
    {
        &self.items
    }

    /// The outcome of a finished run: `Ok` when every action succeeded; otherwise the pages
    /// whose images could not be shown, in order, a message, and the first error.
    pub fn into_result(self) -> (res: Result<(), (Vec<usize>, &'static str, E)>)
        requires
            self.wf(),
            self.stage() == RunStage::Done,
        ensures
            self.clear_failed() ==> (res matches Err((pages, msg, e)) && pages@.len() == 0
                && msg@ == clear_failure_message() && Some(e) == self.first_error()),
            !self.clear_failed() ==> match first_failure(self.history()) {
                None => res is Ok,
                Some(first) => (res matches Err((pages, msg, e)) && pages@ == failed_pages_of(
                    self.items(),
                    self.history(),
                ) && pages@ == self.failed_pages() && msg@ == transfer_failure_message() && e
                    == first && Some(e) == self.first_error()),
            },
    {
        match self.first_error {
            Some(e) => {
                if self.clear_failed {
                    Err((Vec::new(), "Couldn't clear previous images", e))
                } else {
                    Err((self.failed_pages, "Couldn't transfer image to the terminal", e))
                }
            },
            None => Ok(()),
        }
    }
}

} // verus!
