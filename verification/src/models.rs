//! What the browse page shows: its two tabs and its three song sources.

use vstd::prelude::*;

verus! {

/// The two tabs of the browse page.
#[derive(Clone, Copy, Debug, PartialEq, Eq, Structural)]
pub enum BrowseTab {
    Songs,
    Albums,
}

impl Default for BrowseTab {
    /// The songs tab.
    fn default() -> (t: Self)
        ensures
            t == BrowseTab::Songs,
    {
        BrowseTab::Songs
    }
}

/// Which songs or albums the browse page lists.
#[derive(Clone, Copy, Debug, PartialEq, Eq, Structural)]
pub enum SongOption {
    All,
    Starred,
    Random,
}

impl SongOption {
    /// Every option, in display order.
    pub fn all() -> (v: Vec<SongOption>)
        ensures
            v@ == seq![SongOption::All, SongOption::Starred, SongOption::Random],
    {
        let v = vec![SongOption::All, SongOption::Starred, SongOption::Random];
        assert(v@ =~= seq![SongOption::All, SongOption::Starred, SongOption::Random]);
        v
    }

    /// The option's position in display order.
    pub fn index(&self) -> (i: usize)
        ensures
            i == spec_option_index(*self),
    {
        match self {
            SongOption::All => 0,
            SongOption::Starred => 1,
            SongOption::Random => 2,
        }
    }

    /// The option's name as the page shows it.
    pub fn label(&self) -> (s: &'static str)
        ensures
            s@ == spec_option_label(*self),
    {
        match self {
            SongOption::All => "All",
            SongOption::Starred => "Starred",
            SongOption::Random => "Random",
        }
    }

    /// The option above this one, if any.
    pub fn previous(&self) -> (o: Option<SongOption>)
        ensures
            o == spec_option_previous(*self),
    {
        match self {
            SongOption::All => None,
            SongOption::Starred => Some(SongOption::All),
            SongOption::Random => Some(SongOption::Starred),
        }
    }

    /// The option below this one, if any.
    pub fn next(&self) -> (o: Option<SongOption>)
        ensures
            o == spec_option_next(*self),
    {
        match self {
            SongOption::All => Some(SongOption::Starred),
            SongOption::Starred => Some(SongOption::Random),
            SongOption::Random => None,
        }
    }
}

/// The position of an option in the options pane.
pub open spec fn spec_option_index(o: SongOption) -> nat {
    match o {
        SongOption::All => 0,
        SongOption::Starred => 1,
        SongOption::Random => 2,
    }
}

/// How an option is written in the options pane.
pub open spec fn spec_option_label(o: SongOption) -> Seq<char> {
    match o {
        SongOption::All => "All"@,
        SongOption::Starred => "Starred"@,
        SongOption::Random => "Random"@,
    }
}

/// The option above, if there is one.
pub open spec fn spec_option_previous(o: SongOption) -> Option<SongOption> {
    match o {
        SongOption::All => None,
        SongOption::Starred => Some(SongOption::All),
        SongOption::Random => Some(SongOption::Starred),
    }
}

/// The option below, if there is one.
pub open spec fn spec_option_next(o: SongOption) -> Option<SongOption> {
    match o {
        SongOption::All => Some(SongOption::Starred),
        SongOption::Starred => Some(SongOption::Random),
        SongOption::Random => None,
    }
}

/// Moving down and then up (or up and then down) returns to the option one
/// started from.
pub proof fn lemma_option_next_previous(o: SongOption)
    ensures
        spec_option_next(o) matches Some(n) ==> spec_option_previous(n) == Some(o),
        spec_option_previous(o) matches Some(p) ==> spec_option_next(p) == Some(o),
{
}

/// Tab titles in display order.
pub fn tab_titles() -> (v: Vec<(BrowseTab, &'static str)>)
    ensures
        v@ == spec_tab_titles(),
{
    let v = vec![(BrowseTab::Songs, "Songs"), (BrowseTab::Albums, "Albums")];
    assert(v@ =~= spec_tab_titles());
    v
}

/// The tabs of the browse page and their titles, in display order.
pub open spec fn spec_tab_titles() -> Seq<(BrowseTab, &'static str)> {
    seq![(BrowseTab::Songs, "Songs"), (BrowseTab::Albums, "Albums")]
}

/// The divider that the tab bar draws between two titles.
pub fn tab_divider() -> (s: &'static str)
    ensures
        s@ == spec_tab_divider(),
{
    " │ "
}

/// What stands between two tab titles.
pub open spec fn spec_tab_divider() -> Seq<char> {
    " │ "@
}

/// The tab whose title covers column `x`, scanning `titles` with the tab bar
/// cursor at `cursor`: each title but the first is preceded by the divider,
/// and every title is padded by one space on either side.
pub open spec fn tab_hit(titles: Seq<(BrowseTab, &'static str)>, cursor: int, x: int, first: bool) -> Option<BrowseTab>
    decreases titles.len(),
{
    if titles.len() == 0 {
        None
    } else {
        let c = (if first { cursor } else { cursor + spec_tab_divider().len() }) + 1;
        let len = titles[0].1@.len();
        if c <= x < c + len {
            Some(titles[0].0)
        } else {
            tab_hit(titles.drop_first(), c + len + 1, x, false)
        }
    }
}

/// Whether the cursor arithmetic of the scan stays within `u16` up to the
/// point where the scan stops.
pub open spec fn tab_scan_fits(titles: Seq<(BrowseTab, &'static str)>, cursor: int, x: int, first: bool) -> bool
    decreases titles.len(),
{
    if titles.len() == 0 {
        true
    } else {
        let c = (if first { cursor } else { cursor + spec_tab_divider().len() }) + 1;
        let len = titles[0].1@.len();
        &&& c + len <= u16::MAX
        &&& (c <= x < c + len || (c + len + 1 <= u16::MAX && tab_scan_fits(
            titles.drop_first(),
            c + len + 1,
            x,
            false,
        )))
    }
}

/// Compute which tab, if any, contains column `x` of the tab bar whose left
/// edge is at `tab_area_x`: a border column, then each title with one space
/// on either side, the titles separated by the divider.
pub fn tab_at_column(tab_area_x: u16, x: u16) -> (r: Option<BrowseTab>)
    requires
        tab_area_x + 1 <= u16::MAX,
        tab_scan_fits(spec_tab_titles(), tab_area_x + 1, x as int, true),
    ensures
        r == tab_hit(spec_tab_titles(), tab_area_x + 1, x as int, true),
{
    let titles = tab_titles();
    let divider_len = tab_divider().unicode_len();
    let mut cursor: u32 = tab_area_x as u32 + 1;
    let mut i: usize = 0;
    assert(titles@.skip(0) =~= titles@);
    while i < titles.len()
        invariant
            titles@ == spec_tab_titles(),
            divider_len == spec_tab_divider().len(),
            i <= titles.len(),
            cursor <= u16::MAX,
            tab_hit(spec_tab_titles(), tab_area_x + 1, x as int, true) == tab_hit(
                titles@.skip(i as int),
                cursor as int,
                x as int,
                i == 0,
            ),
            tab_scan_fits(titles@.skip(i as int), cursor as int, x as int, i == 0),
        decreases titles.len() - i,
    {
        let ghost rest = titles@.skip(i as int);
        assert(rest[0] == titles@[i as int]);
        assert(rest.drop_first() =~= titles@.skip(i + 1));
        if i > 0 {
            cursor = cursor + divider_len as u32;
        }
        cursor = cursor + 1;
        let (tab, title) = titles[i];
        let title_len = title.unicode_len() as u32;
        if (x as u32) >= cursor && (x as u32) < cursor + title_len {
            return Some(tab);
        }
        cursor = cursor + title_len + 1;
        i = i + 1;
    }
    None
}

} // verus!
