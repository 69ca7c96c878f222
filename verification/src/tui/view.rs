//! Layout arithmetic and labels of the views.

use vstd::prelude::*;
use crate::tui::app::{ChartState, DataSourceKind};
use crate::tui::i18n::Strings;

verus! {

/// The number of candles that fit in `inner_w` columns, at least one.
pub open spec fn max_visible_spec(inner_w: int, bar_w: int) -> int {
    if inner_w / bar_w > 1 {
        inner_w / bar_w
    } else {
        1
    }
}

/// The window of bars `[start, end)` shown around the cursor: as many
/// candles as fit, the cursor near the middle, shifted to stay within the
/// data.
pub open spec fn visible_window_spec(cursor: int, len: int, inner_w: int, bar_w: int) -> (int, int) {
    let max_visible = max_visible_spec(inner_w, bar_w);
    let half = max_visible / 2;
    let end0 = if cursor + half + 1 < len {
        cursor + half + 1
    } else {
        len
    };
    let start = if end0 > max_visible {
        end0 - max_visible
    } else {
        0
    };
    let end = if start + max_visible < len {
        start + max_visible
    } else {
        len
    };
    (start, end)
}

/// The bars of the chart shown in `inner_w` columns: the window
/// `[start, end)` of [`visible_window_spec`]. It lies within the data,
/// holds at most as many candles as fit, and holds the cursor whenever the
/// cursor is on a bar.
pub fn visible_window(cs: &ChartState, inner_w: usize) -> (r: (usize, usize))
    requires
        cs.bar_width > 0,
        cs.cursor + inner_w < usize::MAX,
    ensures
        r.0 as int == visible_window_spec(cs.cursor as int, cs.data@.len() as int, inner_w as int, cs.bar_width as int).0,
        r.1 as int == visible_window_spec(cs.cursor as int, cs.data@.len() as int, inner_w as int, cs.bar_width as int).1,
        r.0 <= r.1 <= cs.data@.len(),
        r.1 - r.0 <= max_visible_spec(inner_w as int, cs.bar_width as int),
        cs.cursor < cs.data@.len() ==> r.0 <= cs.cursor < r.1,
{
    let bar_w = cs.bar_width as usize;
    let q = inner_w / bar_w;
    let max_visible = if q > 1 {
        q
    } else {
        1
    };
    let half = max_visible / 2;
    let len = cs.data.len();
    proof {
        assert(q <= inner_w) by (nonlinear_arith)
            requires
                bar_w >= 1,
                q == inner_w / bar_w,
        ;
    }
    let end0 = if cs.cursor + half + 1 < len {
        cs.cursor + half + 1
    } else {
        len
    };
    let start = if end0 > max_visible {
        end0 - max_visible
    } else {
        0
    };
    let end = if start + max_visible < len {
        start + max_visible
    } else {
        len
    };
    (start, end)
}

/// The name of a data source in the status bars.
pub open spec fn data_source_label_spec(k: DataSourceKind, s: Strings) -> Seq<char> {
    match k {
        DataSourceKind::Sina => s.data_source_sina@,
        DataSourceKind::AkShare => "AkShare"@,
        DataSourceKind::Zhitu => "ZhituAPI"@,
    }
}

/// The name of a data source in the status bars, in the language of `s`.
pub fn data_source_label(data_source: &DataSourceKind, s: &Strings) -> (r: &'static str)
    ensures
        r@ == data_source_label_spec(*data_source, *s),
{
    match data_source {
        DataSourceKind::Sina => s.data_source_sina,
        DataSourceKind::AkShare => "AkShare",
        DataSourceKind::Zhitu => "ZhituAPI",
    }
}

} // verus!
