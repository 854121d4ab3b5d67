//! The shell-reparenting strategy: finding the shell's background
//! container and putting a window under it, behind the desktop icons.

use vstd::prelude::*;
use crate::embed::{
    EmbedError, ShellProbe, ShellStep, TopLevelProbe, SWP_FRAMECHANGED, SWP_NOACTIVATE,
    SWP_NOMOVE, SWP_NOSIZE,
};

verus! {

/// Flags of the placement that embeds the window.
pub open spec fn spec_place_flags() -> u32 {
    SWP_NOACTIVATE | SWP_FRAMECHANGED
}

/// Flags of the placement that only reorders a window.
pub open spec fn spec_reorder_flags() -> u32 {
    SWP_NOMOVE | SWP_NOSIZE | SWP_NOACTIVATE
}

/// Flags of the placement that embeds the window.
#[verifier::when_used_as_spec(spec_place_flags)]
pub fn place_flags() -> (flags: u32)
    ensures
        flags == spec_place_flags(),
        flags == 0x0030,
{
    assert(0x0010u32 | 0x0020u32 == 0x0030u32) by (bit_vector);
    SWP_NOACTIVATE | SWP_FRAMECHANGED
}

/// Flags of the placement that only reorders a window.
#[verifier::when_used_as_spec(spec_reorder_flags)]
pub fn reorder_flags() -> (flags: u32)
    ensures
        flags == spec_reorder_flags(),
        flags == 0x0013,
{
    assert(0x0002u32 | 0x0001u32 | 0x0010u32 == 0x0013u32) by (bit_vector);
    SWP_NOMOVE | SWP_NOSIZE | SWP_NOACTIVATE
}

/// Whether a top-level window marks the background container: it holds the
/// desktop-icons view, and a background container follows it.
pub open spec fn marks_worker(probe: TopLevelProbe) -> bool {
    probe.shell_view != 0 && probe.next_worker != 0
}

/// The background container that an enumeration of the top-level windows
/// finds: the one behind the first window that marks it, or zero.
pub open spec fn spec_locate_worker(windows: Seq<TopLevelProbe>) -> isize
    decreases windows.len(),
{
    if windows.len() == 0 {
        0
    } else if marks_worker(windows[0]) {
        windows[0].next_worker
    } else {
        spec_locate_worker(windows.drop_first())
    }
}

/// Finds the background container among the top-level windows, which are
/// given in the order of their enumeration. The search stops at the first
/// window that marks it.
pub fn locate_worker(windows: &[TopLevelProbe]) -> (worker: isize)
    ensures
        worker == spec_locate_worker(windows@),
        worker != 0 <==> exists|i: int| 0 <= i < windows@.len() && marks_worker(windows@[i]),
{
    let mut i: usize = 0;
    assert(windows@.skip(0) =~= windows@);
    while i < windows.len()
        invariant
            i <= windows@.len(),
            forall|j: int| 0 <= j < i ==> !marks_worker(windows@[j]),
            spec_locate_worker(windows@) == spec_locate_worker(windows@.skip(i as int)),
        decreases windows@.len() - i,
    {
        let probe = windows[i];
        assert(windows@.skip(i as int)[0] == probe);
        if probe.shell_view != 0 && probe.next_worker != 0 {
            assert(marks_worker(windows@[i as int]));
            return probe.next_worker;
        }
        assert(windows@.skip(i as int).drop_first() =~= windows@.skip(i + 1));
        i += 1;
    }
    assert(windows@.skip(i as int).len() == 0);
    0
}

/// The steps that embed a window of the given size, by what was found of
/// the shell.
///
/// Where the desktop-icons view was found, the window goes under the
/// program manager, takes its size and stands right behind the icons view;
/// a background container, if there is one, is put behind the window. Where
/// only the background container was found, the window goes under it with
/// its own size.
pub open spec fn spec_setup_as_wallpaper(probe: ShellProbe, width: i32, height: i32) -> Result<
    Seq<ShellStep>,
    EmbedError,
> {
    if probe.progman == 0 {
        Err(EmbedError::ShellNotFound)
    } else if probe.shell_view != 0 {
        let place = ShellStep::Place {
            insert_after: probe.shell_view,
            x: 0,
            y: 0,
            width: probe.progman_width,
            height: probe.progman_height,
            flags: spec_place_flags(),
        };
        let head = seq![
            ShellStep::MakeChild,
            ShellStep::SetParent(probe.progman),
            ShellStep::MakeLayered,
            place,
        ];
        if probe.worker != 0 {
            Ok(
                head.push(
                    ShellStep::PlaceBehindSelf { window: probe.worker, flags: spec_reorder_flags() },
                ).push(ShellStep::ShowInactive),
            )
        } else {
            Ok(head.push(ShellStep::ShowInactive))
        }
    } else if probe.worker != 0 {
        Ok(
            seq![
                ShellStep::MakeChild,
                ShellStep::SetParent(probe.worker),
                ShellStep::MakeLayered,
                ShellStep::Place {
                    insert_after: 0,
                    x: 0,
                    y: 0,
                    width,
                    height,
                    flags: spec_place_flags(),
                },
                ShellStep::ShowInactive,
            ],
        )
    } else {
        Err(EmbedError::ContainerNotFound)
    }
}

/// Plans the embedding of a window of the given size under the shell's
/// background. Fails, softly, where the shell's windows were not found.
pub fn setup_as_wallpaper(probe: &ShellProbe, width: i32, height: i32) -> (plan: Result<
    Vec<ShellStep>,
    EmbedError,
>)
    ensures
        match plan {
            Ok(steps) => spec_setup_as_wallpaper(*probe, width, height) == Ok::<
                Seq<ShellStep>,
                EmbedError,
            >(steps@),
            Err(e) => spec_setup_as_wallpaper(*probe, width, height) == Err::<
                Seq<ShellStep>,
                EmbedError,
            >(e),
        },
{
    if probe.progman == 0 {
        return Err(EmbedError::ShellNotFound);
    }
    let mut steps: Vec<ShellStep> = Vec::new();
    if probe.shell_view != 0 {
        steps.push(ShellStep::MakeChild);
        steps.push(ShellStep::SetParent(probe.progman));
        steps.push(ShellStep::MakeLayered);
        steps.push(
            ShellStep::Place {
                insert_after: probe.shell_view,
                x: 0,
                y: 0,
                width: probe.progman_width,
                height: probe.progman_height,
                flags: place_flags(),
            },
        );
        if probe.worker != 0 {
            steps.push(ShellStep::PlaceBehindSelf { window: probe.worker, flags: reorder_flags() });
        }
        steps.push(ShellStep::ShowInactive);
        assert(spec_setup_as_wallpaper(*probe, width, height) matches Ok(s) && s =~= steps@);
        Ok(steps)
    } else if probe.worker != 0 {
        steps.push(ShellStep::MakeChild);
        steps.push(ShellStep::SetParent(probe.worker));
        steps.push(ShellStep::MakeLayered);
        steps.push(
            ShellStep::Place {
                insert_after: 0,
                x: 0,
                y: 0,
                width,
                height,
                flags: place_flags(),
            },
        );
        steps.push(ShellStep::ShowInactive);
        assert(spec_setup_as_wallpaper(*probe, width, height) matches Ok(s) && s =~= steps@);
        Ok(steps)
    } else {
        Err(EmbedError::ContainerNotFound)
    }
}

/// An embedding under the shell makes the window a child before it gives it
/// its parent, keeps the desktop icons in front of it wherever their view
/// was found, and shows it last.
pub proof fn lemma_shell_plan_order(probe: ShellProbe, width: i32, height: i32)
    requires
        spec_setup_as_wallpaper(probe, width, height).is_ok(),
    ensures
        ({
            let steps = spec_setup_as_wallpaper(probe, width, height).unwrap();
            &&& steps.len() >= 5
            &&& steps[0] == ShellStep::MakeChild
            &&& steps[1] == ShellStep::SetParent(
                if probe.shell_view != 0 {
                    probe.progman
                } else {
                    probe.worker
                },
            )
            &&& steps[2] == ShellStep::MakeLayered
            &&& steps[3] matches ShellStep::Place { insert_after, .. } && insert_after
                == probe.shell_view
            &&& steps.last() == ShellStep::ShowInactive
        }),
{
}

} // verus!
