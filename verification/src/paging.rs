//! Pages of the view against pages of the remote source.
//!
//! The view shows a small, fixed number of rows per page; the remote source
//! hands out larger pages, numbered from one. This module says which
//! remote page a page of the view starts on, which rows of that remote page
//! it shows, how many rows and pages are known once a remote page has
//! arrived, and which way the reader can go from there. Neither page size
//! is assumed to be the larger or a multiple of the other.

use vstd::arithmetic::div_mod::{lemma_div_is_ordered, lemma_fundamental_div_mod, lemma_mod_bound};
use vstd::arithmetic::mul::{lemma_mul_inequality, lemma_mul_nonnegative};
use vstd::prelude::*;

verus! {

/// Rows on a page of the view where nothing else is configured.
pub const UI_PAGE_SIZE: u32 = 25;

/// Rows on a full page of the remote source.
pub const REMOTE_PAGE_SIZE: u32 = 50;

/// The two page sizes that a view works with, both at least one row.
#[derive(Clone, Copy, Debug)]
pub struct PageSizes {
    ui: u32,
    remote: u32,
}

impl PageSizes {
    #[verifier::type_invariant]
    spec fn positive(self) -> bool {
        self.ui > 0 && self.remote > 0
    }

    /// Rows on a page of the view.
    pub closed spec fn ui_rows(self) -> int {
        self.ui as int
    }

    /// Rows on a full page of the remote source.
    pub closed spec fn remote_rows(self) -> int {
        self.remote as int
    }

    /// The page sizes `ui` and `remote`, unless one of them is zero.
    pub fn new(ui: u32, remote: u32) -> (sizes: Option<PageSizes>)
        ensures
            sizes is Some <==> ui > 0 && remote > 0,
            sizes matches Some(s) ==> s.ui_rows() == ui && s.remote_rows() == remote,
    {
        if ui > 0 && remote > 0 {
            Some(PageSizes { ui, remote })
        } else {
            None
        }
    }

    /// Pages of `UI_PAGE_SIZE` rows over remote pages of `REMOTE_PAGE_SIZE`.
    pub closed spec fn standard_sizes() -> PageSizes {
        PageSizes { ui: UI_PAGE_SIZE, remote: REMOTE_PAGE_SIZE }
    }

    /// The standard sizes are what their constants say.
    pub proof fn lemma_standard_sizes()
        ensures
            Self::standard_sizes().ui_rows() == UI_PAGE_SIZE,
            Self::standard_sizes().remote_rows() == REMOTE_PAGE_SIZE,
    {
    }

    /// Pages of `UI_PAGE_SIZE` rows over remote pages of `REMOTE_PAGE_SIZE`.
    pub fn standard() -> (sizes: PageSizes)
        ensures
            sizes == Self::standard_sizes(),
            sizes.ui_rows() == UI_PAGE_SIZE,
            sizes.remote_rows() == REMOTE_PAGE_SIZE,
    {
        PageSizes { ui: UI_PAGE_SIZE, remote: REMOTE_PAGE_SIZE }
    }

    /// Rows on a page of the view.
    pub fn ui(&self) -> (rows: u32)
        ensures
            rows == self.ui_rows(),
            rows > 0,
    {
        proof {
            use_type_invariant(self);
        }
        self.ui
    }

    /// Rows on a full page of the remote source.
    pub fn remote(&self) -> (rows: u32)
        ensures
            rows == self.remote_rows(),
            rows > 0,
    {
        proof {
            use_type_invariant(self);
        }
        self.remote
    }
}

/// The remote page, counted from one, that holds the first row of page
/// `ui_page` of the view, pages of the view counted from zero.
pub open spec fn remote_page_of(ui_page: int, ui_page_size: int, remote_page_size: int) -> int {
    (ui_page * ui_page_size) / remote_page_size + 1
}

/// Where, within its remote page, the first row of page `ui_page` stands.
pub open spec fn local_offset(ui_page: int, ui_page_size: int, remote_page_size: int) -> int {
    (ui_page * ui_page_size) % remote_page_size
}

/// The rows of a remote page holding `available_rows` rows that page
/// `ui_page` shows, as the index of the first and their number. A page
/// that starts at or behind the last row shows nothing, and its window
/// is the empty one at the end of the rows.
pub open spec fn window_of(
    ui_page: int,
    ui_page_size: int,
    remote_page_size: int,
    available_rows: int,
) -> (int, int) {
    let offset = local_offset(ui_page, ui_page_size, remote_page_size);
    if offset >= available_rows {
        (available_rows, 0)
    } else if ui_page_size <= available_rows - offset {
        (offset, ui_page_size)
    } else {
        (offset, available_rows - offset)
    }
}

/// The rows known to exist once remote page `remote_page` has arrived with
/// `rows_in_page` rows: those of the full pages before it, and its own.
pub open spec fn rows_known(remote_page: int, remote_page_size: int, rows_in_page: int) -> int {
    (remote_page - 1) * remote_page_size + rows_in_page
}

/// The pages of the view that `total_rows` rows fill, the last one
/// perhaps in part.
pub open spec fn pages_for(total_rows: int, ui_page_size: int) -> int {
    (total_rows + ui_page_size - 1) / ui_page_size
}

/// The last page of the view that holds a row; page zero where there is
/// no row at all.
pub open spec fn last_page_of(total_rows: int, ui_page_size: int) -> int {
    if total_rows <= 0 {
        0
    } else {
        (total_rows - 1) / ui_page_size
    }
}

/// `ui_page`, or the last page that holds a row where `ui_page` lies
/// behind it.
pub open spec fn clamped_page(ui_page: int, total_rows: int, ui_page_size: int) -> int {
    if ui_page <= last_page_of(total_rows, ui_page_size) {
        ui_page
    } else {
        last_page_of(total_rows, ui_page_size)
    }
}

/// Which ways are open from a page of the view. Refreshing is always open
/// and has no field.
#[derive(Clone, Copy, Debug, PartialEq, Eq, Structural)]
pub struct NavState {
    /// There is a page before this one.
    pub can_prev: bool,
    /// There is, or may be, a page behind this one.
    pub can_next: bool,
}

/// The ways open from page `ui_page` when `total_rows_known` rows are known
/// and the remote source says whether more pages follow. A remote source
/// that has more keeps the way forward open whatever the known rows say.
pub open spec fn nav_of(
    ui_page: int,
    ui_page_size: int,
    total_rows_known: int,
    remote_has_next: bool,
) -> NavState {
    NavState {
        can_prev: ui_page > 0,
        can_next: ui_page + 1 < pages_for(total_rows_known, ui_page_size) || remote_has_next,
    }
}

/// The remote page to load for page `ui_page` of the view.
pub fn remote_page_for(ui_page: u32, ui_page_size: u32, remote_page_size: u32) -> (remote_page: u64)
    requires
        remote_page_size > 0,
    ensures
        remote_page == remote_page_of(ui_page as int, ui_page_size as int, remote_page_size as int),
        remote_page >= 1,
{
    let first_row: u64 = first_row_of(ui_page, ui_page_size);
    proof {
        lemma_div_is_ordered(0, first_row as int, remote_page_size as int);
        vstd::arithmetic::div_mod::lemma_div_nonincreasing(first_row as int, remote_page_size as int);
    }
    first_row / (remote_page_size as u64) + 1
}

/// The index, over all rows, of the first row of page `ui_page`.
fn first_row_of(ui_page: u32, ui_page_size: u32) -> (row: u64)
    ensures
        row == ui_page * ui_page_size,
        row <= 0xffff_fffe_0000_0001,
{
    assert(ui_page * ui_page_size <= 0xffff_fffe_0000_0001) by (nonlinear_arith)
        requires
            0 <= ui_page <= 0xffff_ffff,
            0 <= ui_page_size <= 0xffff_ffff,
    ;
    (ui_page as u64) * (ui_page_size as u64)
}

/// The rows of the loaded remote page that page `ui_page` shows: the index
/// of the first one and how many there are. The window never reaches past
/// the rows that are there.
pub fn row_window(
    ui_page: u32,
    ui_page_size: u32,
    remote_page_size: u32,
    available_rows: usize,
) -> (window: (usize, usize))
    requires
        remote_page_size > 0,
    ensures
        (window.0 as int, window.1 as int) == window_of(
            ui_page as int,
            ui_page_size as int,
            remote_page_size as int,
            available_rows as int,
        ),
        window.0 + window.1 <= available_rows,
        window.1 <= ui_page_size,
{
    let first_row: u64 = first_row_of(ui_page, ui_page_size);
    proof {
        lemma_mod_bound(first_row as int, remote_page_size as int);
    }
    let offset: usize = (first_row % (remote_page_size as u64)) as usize;
    if offset >= available_rows {
        (available_rows, 0)
    } else {
        let room: usize = available_rows - offset;
        if ui_page_size as usize <= room {
            (offset, ui_page_size as usize)
        } else {
            (offset, room)
        }
    }
}

/// The rows known to exist once `remote_page` has arrived with `rows_in_page`
/// rows.
pub fn total_rows_known(remote_page: u64, remote_page_size: u32, rows_in_page: usize) -> (total:
    u128)
    requires
        remote_page >= 1,
    ensures
        total == rows_known(remote_page as int, remote_page_size as int, rows_in_page as int),
{
    assert((remote_page - 1) * remote_page_size <= 0xffff_ffff_ffff_ffff * 0xffff_ffff)
        by (nonlinear_arith)
        requires
            0 <= remote_page - 1 <= 0xffff_ffff_ffff_ffff,
            0 <= remote_page_size <= 0xffff_ffff,
    ;
    ((remote_page - 1) as u128) * (remote_page_size as u128) + (rows_in_page as u128)
}

/// The pages of the view that `total_rows` rows fill.
pub fn total_ui_pages(total_rows: u128, ui_page_size: u32) -> (pages: u128)
    requires
        ui_page_size > 0,
    ensures
        pages == pages_for(total_rows as int, ui_page_size as int),
        pages <= total_rows,
{
    let size: u128 = ui_page_size as u128;
    let whole: u128 = total_rows / size;
    let over: u128 = total_rows % size;
    proof {
        lemma_pages_for(total_rows as int, ui_page_size as int);
    }
    if over == 0 {
        whole
    } else {
        whole + 1
    }
}

/// `pages_for` by quotient and remainder, and its bounds.
pub proof fn lemma_pages_for(total_rows: int, ui_page_size: int)
    requires
        total_rows >= 0,
        ui_page_size > 0,
    ensures
        pages_for(total_rows, ui_page_size) == if total_rows % ui_page_size == 0 {
            total_rows / ui_page_size
        } else {
            total_rows / ui_page_size + 1
        },
        0 <= pages_for(total_rows, ui_page_size) <= total_rows,
        total_rows > 0 ==> pages_for(total_rows, ui_page_size) == last_page_of(
            total_rows,
            ui_page_size,
        ) + 1,
{
    let q = total_rows / ui_page_size;
    let r = total_rows % ui_page_size;
    lemma_fundamental_div_mod(total_rows, ui_page_size);
    lemma_mod_bound(total_rows, ui_page_size);
    lemma_div_is_ordered(0, total_rows, ui_page_size);
    assert(q >= 0);
    assert(ui_page_size * q >= q) by (nonlinear_arith)
        requires
            q >= 0,
            ui_page_size >= 1,
    ;
    if r == 0 {
        vstd::arithmetic::div_mod::lemma_fundamental_div_mod_converse(
            total_rows + ui_page_size - 1,
            ui_page_size,
            q,
            ui_page_size - 1,
        );
        if total_rows > 0 {
            assert(q >= 1) by (nonlinear_arith)
                requires
                    total_rows == ui_page_size * q,
                    total_rows > 0,
                    ui_page_size > 0,
            ;
            assert(ui_page_size * (q - 1) == ui_page_size * q - ui_page_size) by (nonlinear_arith);
            vstd::arithmetic::div_mod::lemma_fundamental_div_mod_converse(
                total_rows - 1,
                ui_page_size,
                q - 1,
                ui_page_size - 1,
            );
        }
    } else {
        assert(ui_page_size * (q + 1) == ui_page_size * q + ui_page_size) by (nonlinear_arith);
        vstd::arithmetic::div_mod::lemma_fundamental_div_mod_converse(
            total_rows + ui_page_size - 1,
            ui_page_size,
            q + 1,
            r - 1,
        );
        vstd::arithmetic::div_mod::lemma_fundamental_div_mod_converse(
            total_rows - 1,
            ui_page_size,
            q,
            r - 1,
        );
    }
}

/// Page `ui_page`, held back to the last page that the known rows reach.
pub fn clamp_page(ui_page: u32, total_rows: u128, ui_page_size: u32) -> (page: u32)
    requires
        ui_page_size > 0,
    ensures
        page == clamped_page(ui_page as int, total_rows as int, ui_page_size as int),
        page <= ui_page,
{
    if total_rows == 0 {
        return 0;
    }
    let last: u128 = (total_rows - 1) / (ui_page_size as u128);
    if (ui_page as u128) <= last {
        ui_page
    } else {
        last as u32
    }
}

/// Which ways are open from page `ui_page`.
pub fn nav_state(
    ui_page: u32,
    ui_page_size: u32,
    total_rows_known: u128,
    remote_has_next: bool,
) -> (nav: NavState)
    requires
        ui_page_size > 0,
    ensures
        nav == nav_of(
            ui_page as int,
            ui_page_size as int,
            total_rows_known as int,
            remote_has_next,
        ),
{
    let pages: u128 = total_ui_pages(total_rows_known, ui_page_size);
    NavState { can_prev: ui_page > 0, can_next: (ui_page as u128) + 1 < pages || remote_has_next }
}

/// A later page of the view never starts on an earlier remote page.
pub proof fn lemma_remote_page_monotonic(
    earlier: int,
    later: int,
    ui_page_size: int,
    remote_page_size: int,
)
    requires
        0 <= earlier <= later,
        ui_page_size >= 0,
        remote_page_size > 0,
    ensures
        remote_page_of(earlier, ui_page_size, remote_page_size) <= remote_page_of(
            later,
            ui_page_size,
            remote_page_size,
        ),
        remote_page_of(earlier, ui_page_size, remote_page_size) >= 1,
{
    lemma_mul_inequality(earlier, later, ui_page_size);
    lemma_mul_nonnegative(earlier, ui_page_size);
    lemma_div_is_ordered(earlier * ui_page_size, later * ui_page_size, remote_page_size);
    lemma_div_is_ordered(0, earlier * ui_page_size, remote_page_size);
}

/// The first page of the view starts on the first remote page, at its
/// first row.
pub proof fn lemma_first_page(ui_page_size: int, remote_page_size: int)
    requires
        remote_page_size > 0,
    ensures
        remote_page_of(0, ui_page_size, remote_page_size) == 1,
        local_offset(0, ui_page_size, remote_page_size) == 0,
{
    assert(0 * ui_page_size == 0) by (nonlinear_arith);
    vstd::arithmetic::div_mod::lemma_div_of0(remote_page_size);
    vstd::arithmetic::div_mod::lemma_small_mod(0, remote_page_size as nat);
}

/// The remote page of a page of the view is the one that holds its first
/// row, at the page's local offset: the full remote pages before it and
/// the offset make up the index of that row, and the offset lies within
/// one remote page.
pub proof fn lemma_remote_page_holds_first_row(
    ui_page: int,
    ui_page_size: int,
    remote_page_size: int,
)
    requires
        ui_page >= 0,
        ui_page_size >= 0,
        remote_page_size > 0,
    ensures
        ui_page * ui_page_size == (remote_page_of(ui_page, ui_page_size, remote_page_size) - 1)
            * remote_page_size + local_offset(ui_page, ui_page_size, remote_page_size),
        0 <= local_offset(ui_page, ui_page_size, remote_page_size) < remote_page_size,
{
    let first_row = ui_page * ui_page_size;
    lemma_fundamental_div_mod(first_row, remote_page_size);
    lemma_mod_bound(first_row, remote_page_size);
    assert(remote_page_size * (first_row / remote_page_size) == (first_row / remote_page_size)
        * remote_page_size) by (nonlinear_arith);
}

/// Where the remote page size is a multiple of the page size of the view,
/// no page of the view straddles two remote pages: a page shows a full
/// page of rows out of a full remote page.
pub proof fn lemma_aligned_pages_are_full(ui_page: int, ui_page_size: int, remote_page_size: int)
    requires
        ui_page >= 0,
        ui_page_size > 0,
        remote_page_size > 0,
        remote_page_size % ui_page_size == 0,
    ensures
        window_of(ui_page, ui_page_size, remote_page_size, remote_page_size) == (
            local_offset(ui_page, ui_page_size, remote_page_size),
            ui_page_size,
        ),
        local_offset(ui_page, ui_page_size, remote_page_size) % ui_page_size == 0,
{
    let first_row = ui_page * ui_page_size;
    let offset = first_row % remote_page_size;
    let pages = first_row / remote_page_size;
    let per_remote = remote_page_size / ui_page_size;
    lemma_mul_nonnegative(ui_page, ui_page_size);
    lemma_fundamental_div_mod(first_row, remote_page_size);
    lemma_mod_bound(first_row, remote_page_size);
    lemma_fundamental_div_mod(remote_page_size, ui_page_size);
    let whole = ui_page - pages * per_remote;
    assert(offset == whole * ui_page_size) by (nonlinear_arith)
        requires
            first_row == ui_page * ui_page_size,
            first_row == remote_page_size * pages + offset,
            remote_page_size == ui_page_size * per_remote,
            whole == ui_page - pages * per_remote,
    ;
    assert(whole <= per_remote - 1) by (nonlinear_arith)
        requires
            offset == whole * ui_page_size,
            offset < remote_page_size,
            remote_page_size == ui_page_size * per_remote,
            ui_page_size > 0,
    ;
    assert(offset + ui_page_size <= remote_page_size) by (nonlinear_arith)
        requires
            offset == whole * ui_page_size,
            whole <= per_remote - 1,
            remote_page_size == ui_page_size * per_remote,
            ui_page_size > 0,
    ;
    vstd::arithmetic::div_mod::lemma_mod_multiples_basic(whole, ui_page_size);
}

/// A page held back lies neither behind the page asked for nor behind the
/// last page that holds a row.
pub proof fn lemma_clamped_page(ui_page: int, total_rows: int, ui_page_size: int)
    requires
        ui_page >= 0,
        total_rows >= 0,
        ui_page_size > 0,
    ensures
        0 <= clamped_page(ui_page, total_rows, ui_page_size) <= ui_page,
        clamped_page(ui_page, total_rows, ui_page_size) <= last_page_of(total_rows, ui_page_size),
        total_rows > 0 ==> clamped_page(ui_page, total_rows, ui_page_size) < pages_for(
            total_rows,
            ui_page_size,
        ),
{
    lemma_pages_for(total_rows, ui_page_size);
    if total_rows > 0 {
        lemma_div_is_ordered(0, total_rows - 1, ui_page_size);
    }
}

/// A window lies within the rows that are there, and holds no more rows
/// than a page of the view.
pub proof fn lemma_window_within_rows(
    ui_page: int,
    ui_page_size: int,
    remote_page_size: int,
    available_rows: int,
)
    requires
        ui_page >= 0,
        ui_page_size >= 0,
        remote_page_size > 0,
        available_rows >= 0,
    ensures
        ({
            let (offset, length) = window_of(ui_page, ui_page_size, remote_page_size, available_rows);
            &&& 0 <= offset
            &&& 0 <= length <= ui_page_size
            &&& offset + length <= available_rows
        }),
{
    lemma_mul_nonnegative(ui_page, ui_page_size);
    lemma_mod_bound(ui_page * ui_page_size, remote_page_size);
}

/// A page that starts within the rows of its remote page shows the rows
/// from its own offset on, as many as a page holds or as are left.
pub proof fn lemma_window_starts_at_offset(
    ui_page: int,
    ui_page_size: int,
    remote_page_size: int,
    available_rows: int,
)
    requires
        local_offset(ui_page, ui_page_size, remote_page_size) < available_rows,
    ensures
        ({
            let offset = local_offset(ui_page, ui_page_size, remote_page_size);
            let (start, length) = window_of(ui_page, ui_page_size, remote_page_size, available_rows);
            &&& start == offset
            &&& length == if ui_page_size <= available_rows - offset {
                ui_page_size
            } else {
                available_rows - offset
            }
        }),
{
}

} // verus!
