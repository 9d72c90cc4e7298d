//! Finding the desktop window behind the icons, where the wallpaper windows
//! are parented.
//!
//! After Progman is asked to split off a WorkerW layer, the top-level
//! windows of classes `WorkerW` and `Progman` are listed in z-order. The
//! wallpaper goes into the first `WorkerW` after the last layer that holds
//! the icon view (`SHELLDLL_DefView`), else into that layer itself, else
//! into Progman.
use vstd::prelude::*;
use crate::wide::utf16_of;

verus! {

/// The two window classes that make up the desktop.
#[derive(Clone, Copy, PartialEq, Eq, Debug, Structural)]
pub enum LayerClass {
    WorkerW,
    Progman,
}

/// A top-level desktop window, in z-order.
#[derive(Clone, Copy, PartialEq, Eq, Debug, Structural)]
pub struct WindowLayer {
    pub hwnd: isize,
    pub class: LayerClass,
    /// Whether it holds the icon view.
    pub has_shell: bool,
}

pub open spec fn class_name(c: LayerClass) -> Seq<char> {
    match c {
        LayerClass::WorkerW => "WorkerW"@,
        LayerClass::Progman => "Progman"@,
    }
}

/// The desktop class that a window class name (as UTF-16 units) names.
pub open spec fn layer_class_of(units: Seq<u16>) -> Option<LayerClass> {
    if units == utf16_of(class_name(LayerClass::WorkerW)) {
        Some(LayerClass::WorkerW)
    } else if units == utf16_of(class_name(LayerClass::Progman)) {
        Some(LayerClass::Progman)
    } else {
        None
    }
}

fn units_equal(a: &[u16], b: &[u16]) -> (r: bool)
    ensures
        r == (a@ == b@),
{
    if a.len() != b.len() {
        return false;
    }
    let mut i: usize = 0;
    while i < a.len()
        invariant
            i <= a@.len() == b@.len(),
            forall|k: int| 0 <= k < i ==> a@[k] == b@[k],
        decreases a.len() - i,
    {
        if a[i] != b[i] {
            return false;
        }
        i += 1;
    }
    assert(a@ =~= b@);
    true
}

/// The desktop class named by a window class name read back from the API.
pub fn layer_class(units: &[u16]) -> (c: Option<LayerClass>)
    ensures
        c == layer_class_of(units@),
{
    let worker = crate::wide::to_wide("WorkerW");
    let progman = crate::wide::to_wide("Progman");
    let ghost w = worker@;
    let ghost p = progman@;
    assert(w.drop_last() =~= utf16_of(class_name(LayerClass::WorkerW)));
    assert(p.drop_last() =~= utf16_of(class_name(LayerClass::Progman)));
    if units_equal(units, &worker.as_slice()[0..worker.len() - 1]) {
        Some(LayerClass::WorkerW)
    } else if units_equal(units, &progman.as_slice()[0..progman.len() - 1]) {
        Some(LayerClass::Progman)
    } else {
        None
    }
}

/// The index of the last layer that holds the icon view, or -1.
pub open spec fn last_shell_layer(s: Seq<WindowLayer>) -> int
    decreases s.len(),
{
    if s.len() == 0 {
        -1
    } else if s.last().has_shell {
        s.len() - 1
    } else {
        last_shell_layer(s.drop_last())
    }
}

/// The index of the first `WorkerW` layer at or after `from`, or `s.len()`.
pub open spec fn first_worker_from(s: Seq<WindowLayer>, from: int) -> int
    decreases s.len() - from,
{
    if from < 0 || from >= s.len() {
        s.len() as int
    } else if s[from].class == LayerClass::WorkerW {
        from
    } else {
        first_worker_from(s, from + 1)
    }
}

/// The window that the wallpaper windows are parented to.
pub open spec fn wallpaper_parent(s: Seq<WindowLayer>, progman: isize) -> isize {
    let k = last_shell_layer(s);
    let target = if k < 0 {
        0
    } else {
        let w = first_worker_from(s, k + 1);
        let after = if w < s.len() {
            s[w].hwnd
        } else {
            0
        };
        if after != 0 {
            after
        } else {
            s[k].hwnd
        }
    };
    if target != 0 {
        target
    } else {
        progman
    }
}

/// The window that the wallpaper windows are parented to, from the desktop
/// layers in z-order and the Progman window.
pub fn choose_wallpaper_parent(layers: &[WindowLayer], progman: isize) -> (h: isize)
    ensures
        h == wallpaper_parent(layers@, progman),
{
    let n = layers.len();
    let mut shell: Option<usize> = None;
    let mut i: usize = 0;
    while i < n
        invariant
            i <= n == layers@.len(),
            match shell {
                Some(k) => k < i && k as int == last_shell_layer(layers@.subrange(0, i as int)),
                None => last_shell_layer(layers@.subrange(0, i as int)) == -1,
            },
        decreases n - i,
    {
        assert(layers@.subrange(0, i + 1).drop_last() =~= layers@.subrange(0, i as int));
        if layers[i].has_shell {
            shell = Some(i);
        }
        i += 1;
    }
    assert(layers@.subrange(0, n as int) =~= layers@);
    let mut target: isize = 0;
    if let Some(k) = shell {
        let mut j = k + 1;
        while j < n && layers[j].class != LayerClass::WorkerW
            invariant
                k < j <= n == layers@.len(),
                first_worker_from(layers@, k as int + 1) == first_worker_from(layers@, j as int),
            decreases n - j,
        {
            j += 1;
        }
        if j < n {
            target = layers[j].hwnd;
        }
        if target == 0 {
            target = layers[k].hwnd;
        }
    }
    if target == 0 {
        progman
    } else {
        target
    }
}

proof fn lemma_first_worker_range(s: Seq<WindowLayer>, from: int)
    requires
        0 <= from,
    ensures
        from <= first_worker_from(s, from) <= s.len() || first_worker_from(s, from) == s.len(),
        first_worker_from(s, from) < s.len() ==> s[first_worker_from(s, from)].class
            == LayerClass::WorkerW,
    decreases s.len() - from,
{
    if from < s.len() && s[from].class != LayerClass::WorkerW {
        lemma_first_worker_range(s, from + 1);
    }
}

proof fn lemma_last_shell_range(s: Seq<WindowLayer>)
    ensures
        -1 <= last_shell_layer(s) < s.len(),
        last_shell_layer(s) >= 0 ==> s[last_shell_layer(s)].has_shell,
        last_shell_layer(s) == -1 ==> forall|i: int| 0 <= i < s.len() ==> !(#[trigger] s[i]).has_shell,
    decreases s.len(),
{
    if s.len() > 0 && !s.last().has_shell {
        let p = s.drop_last();
        lemma_last_shell_range(p);
        assert forall|i: int| 0 <= i < s.len() && last_shell_layer(s) == -1 implies !(#[trigger] s[i]).has_shell by {
            if i < s.len() - 1 {
                assert(s[i] == p[i]);
            }
        }
    }
}

/// Law: the wallpaper goes into one of the listed desktop layers or into
/// Progman, and into Progman whenever no layer holds the icon view.
pub proof fn law_parent_is_desktop_window(s: Seq<WindowLayer>, progman: isize)
    ensures
        wallpaper_parent(s, progman) == progman || exists|i: int| 0 <= i < s.len()
            && s[i].hwnd == wallpaper_parent(s, progman),
        (forall|i: int| 0 <= i < s.len() ==> !(#[trigger] s[i]).has_shell) ==> wallpaper_parent(
            s,
            progman,
        ) == progman,
{
    lemma_last_shell_range(s);
    let k = last_shell_layer(s);
    if k >= 0 {
        lemma_first_worker_range(s, k + 1);
    }
}

proof fn lemma_last_shell_is(s: Seq<WindowLayer>, k: int)
    requires
        0 <= k < s.len(),
        s[k].has_shell,
        forall|m: int| k < m < s.len() ==> !(#[trigger] s[m]).has_shell,
    ensures
        last_shell_layer(s) == k,
    decreases s.len(),
{
    if !s.last().has_shell {
        let p = s.drop_last();
        assert(k < s.len() - 1);
        assert forall|m: int| k < m < p.len() implies !(#[trigger] p[m]).has_shell by {
            assert(p[m] == s[m]);
        }
        lemma_last_shell_is(p, k);
    }
}

proof fn lemma_first_worker_is(s: Seq<WindowLayer>, from: int, j: int)
    requires
        0 <= from <= j < s.len(),
        s[j].class == LayerClass::WorkerW,
        forall|m: int| from <= m < j ==> (#[trigger] s[m]).class != LayerClass::WorkerW,
    ensures
        first_worker_from(s, from) == j,
    decreases j - from,
{
    if from < j {
        lemma_first_worker_is(s, from + 1, j);
    }
}

proof fn lemma_first_worker_none(s: Seq<WindowLayer>, from: int)
    requires
        0 <= from,
        forall|m: int| from <= m < s.len() ==> (#[trigger] s[m]).class != LayerClass::WorkerW,
    ensures
        first_worker_from(s, from) == s.len(),
    decreases s.len() - from,
{
    if from < s.len() {
        lemma_first_worker_none(s, from + 1);
    }
}

/// Law: with `k` the last layer that holds the icon view, the wallpaper
/// goes into the first `WorkerW` layer after it; when there is none, or its
/// handle is null, into layer `k` itself; and into Progman only when that
/// handle is null too.
pub proof fn law_parent_after_icon_layer(s: Seq<WindowLayer>, progman: isize, k: int, j: int)
    requires
        0 <= k < s.len(),
        s[k].has_shell,
        forall|m: int| k < m < s.len() ==> !(#[trigger] s[m]).has_shell,
    ensures
        (k < j < s.len() && s[j].class == LayerClass::WorkerW && forall|m: int|
            k < m < j ==> (#[trigger] s[m]).class != LayerClass::WorkerW) ==> wallpaper_parent(
            s,
            progman,
        ) == (if s[j].hwnd != 0 {
            s[j].hwnd
        } else if s[k].hwnd != 0 {
            s[k].hwnd
        } else {
            progman
        }),
        (forall|m: int| k < m < s.len() ==> (#[trigger] s[m]).class != LayerClass::WorkerW)
            ==> wallpaper_parent(s, progman) == (if s[k].hwnd != 0 {
            s[k].hwnd
        } else {
            progman
        }),
{
    lemma_last_shell_is(s, k);
    if k < j < s.len() && s[j].class == LayerClass::WorkerW && forall|m: int|
        k < m < j ==> (#[trigger] s[m]).class != LayerClass::WorkerW {
        lemma_first_worker_is(s, k + 1, j);
    }
    if forall|m: int| k < m < s.len() ==> (#[trigger] s[m]).class != LayerClass::WorkerW {
        lemma_first_worker_none(s, k + 1);
    }
}

} // verus!
