use vstd::prelude::*;

verus! {

/// The Win32 `ERROR_SUCCESS` status.
pub const ERROR_SUCCESS: u32 = 0;

/// What the loop that watches the `Personalize` registry key reports.
#[derive(Debug, Clone, Copy, PartialEq, Eq, Structural)]
pub enum WatcherEvent {
    /// `RegNotifyChangeKeyValue` returned with this status.
    Notified { status: u32 },
    /// The shell lightness was read again after a change notification.
    ShellRead { light: bool },
}

/// What the loop has to do next.
#[derive(Debug, Clone, Copy, PartialEq, Eq, Structural)]
pub enum WatcherAction {
    /// Re-read the shell lightness.
    ReadShell,
    /// Reload the tray and settings window icons, then wait for the next change.
    RefreshIcons,
    /// Nothing changed: wait for the next change.
    Wait,
    /// The notification failed: stop watching.
    Stop,
}

/// Tracks the last shell lightness seen so icons are refreshed only when
/// the lightness actually changes.
pub struct ShellThemeWatcher {
    last_light: bool,
}

/// One step of the watcher: the new last-seen lightness and the action.
pub open spec fn watcher_step(last_light: bool, event: WatcherEvent) -> (bool, WatcherAction) {
    match event {
        WatcherEvent::Notified { status } => if status == ERROR_SUCCESS {
            (last_light, WatcherAction::ReadShell)
        } else {
            (last_light, WatcherAction::Stop)
        },
        WatcherEvent::ShellRead { light } => if light != last_light {
            (light, WatcherAction::RefreshIcons)
        } else {
            (last_light, WatcherAction::Wait)
        },
    }
}

impl ShellThemeWatcher {
    /// The lightness the watcher last saw.
    pub closed spec fn last_seen(&self) -> bool {
        self.last_light
    }

    /// Starts from the lightness read when the watcher is set up.
    pub fn new(initial_light: bool) -> (watcher: Self)
        ensures
            watcher.last_seen() == initial_light,
    {
        ShellThemeWatcher { last_light: initial_light }
    }

    /// The lightness the watcher last saw.
    pub fn last_light(&self) -> (light: bool)
        ensures
            light == self.last_seen(),
    {
        self.last_light
    }

    /// Advances the watcher by one event.
    pub fn step(&mut self, event: WatcherEvent) -> (action: WatcherAction)
        ensures
            (final(self).last_seen(), action) == watcher_step(old(self).last_seen(), event),
    {
        match event {
            WatcherEvent::Notified { status } => {
                if status == ERROR_SUCCESS {
                    WatcherAction::ReadShell
                } else {
                    WatcherAction::Stop
                }
            },
            WatcherEvent::ShellRead { light } => {
                if light != self.last_light {
                    self.last_light = light;
                    WatcherAction::RefreshIcons
                } else {
                    WatcherAction::Wait
                }
            },
        }
    }
}

/// Icons are refreshed on a read exactly when the lightness differs from the
/// last one seen, and a second read of the same lightness refreshes nothing.
pub proof fn lemma_refresh_only_on_change(last_light: bool, light: bool)
    ensures
        (watcher_step(last_light, WatcherEvent::ShellRead { light }).1
            == WatcherAction::RefreshIcons) <==> light != last_light,
        watcher_step(
            watcher_step(last_light, WatcherEvent::ShellRead { light }).0,
            WatcherEvent::ShellRead { light },
        ).1 == WatcherAction::Wait,
        watcher_step(last_light, WatcherEvent::ShellRead { light }).0 == light,
{
}

/// A notification never changes what the watcher remembers; a failed one stops it.
pub proof fn lemma_notification_keeps_state(last_light: bool, status: u32)
    ensures
        watcher_step(last_light, WatcherEvent::Notified { status }).0 == last_light,
        (watcher_step(last_light, WatcherEvent::Notified { status }).1 == WatcherAction::Stop)
            <==> status != ERROR_SUCCESS,
{
}

/// What the watcher remembers after a run of events from `initial_light`.
pub open spec fn run_state(initial_light: bool, events: Seq<WatcherEvent>) -> bool
    decreases events.len(),
{
    if events.len() == 0 {
        initial_light
    } else {
        watcher_step(run_state(initial_light, events.drop_last()), events.last()).0
    }
}

/// The lightness each icon refresh of a run was made for, in order.
pub open spec fn refreshed_readings(initial_light: bool, events: Seq<WatcherEvent>) -> Seq<bool>
    decreases events.len(),
{
    if events.len() == 0 {
        Seq::empty()
    } else {
        let before = refreshed_readings(initial_light, events.drop_last());
        let step = watcher_step(run_state(initial_light, events.drop_last()), events.last());
        if step.1 == WatcherAction::RefreshIcons {
            before.push(step.0)
        } else {
            before
        }
    }
}

/// The lightness of the last shell reading of a run, or the initial one.
pub open spec fn last_reading(initial_light: bool, events: Seq<WatcherEvent>) -> bool
    decreases events.len(),
{
    if events.len() == 0 {
        initial_light
    } else {
        match events.last() {
            WatcherEvent::ShellRead { light } => light,
            WatcherEvent::Notified { .. } => last_reading(initial_light, events.drop_last()),
        }
    }
}

/// Over any run of the watcher: it always remembers the last lightness read;
/// no refresh happens at start; the first refresh is for the opposite of the
/// initial lightness, and each later one for the opposite of the one before
/// (never two refreshes for one lightness); the last refresh is for the
/// lightness remembered.
pub proof fn lemma_refreshes_alternate(initial_light: bool, events: Seq<WatcherEvent>)
    ensures
        run_state(initial_light, events) == last_reading(initial_light, events),
        run_state(initial_light, events) == (if refreshed_readings(initial_light, events).len()
            == 0 {
            initial_light
        } else {
            refreshed_readings(initial_light, events).last()
        }),
        forall|i: int|
            0 <= i < refreshed_readings(initial_light, events).len() ==> #[trigger] refreshed_readings(
                initial_light,
                events,
            )[i] != (if i == 0 {
                initial_light
            } else {
                refreshed_readings(initial_light, events)[i - 1]
            }),
    decreases events.len(),
{
    if events.len() > 0 {
        let prefix = events.drop_last();
        lemma_refreshes_alternate(initial_light, prefix);
        let before = refreshed_readings(initial_light, prefix);
        let step = watcher_step(run_state(initial_light, prefix), events.last());
        if step.1 == WatcherAction::RefreshIcons {
            let after = before.push(step.0);
            assert(refreshed_readings(initial_light, events) == after);
            assert forall|i: int| 0 <= i < after.len() implies #[trigger] after[i] != (if i == 0 {
                initial_light
            } else {
                after[i - 1]
            }) by {
                if i < before.len() {
                    assert(after[i] == before[i]);
                    if i > 0 {
                        assert(after[i - 1] == before[i - 1]);
                    }
                } else {
                    assert(i == before.len());
                    if i > 0 {
                        assert(after[i - 1] == before.last());
                    }
                }
            }
        }
    }
}

/// After any run, a shell reading that differs from the last lightness read
/// makes the watcher refresh the icons for that new lightness.
pub proof fn lemma_change_is_refreshed(initial_light: bool, events: Seq<WatcherEvent>)
    ensures
        ({
            let light = !last_reading(initial_light, events);
            let next = events.push(WatcherEvent::ShellRead { light });
            &&& watcher_step(run_state(initial_light, events), WatcherEvent::ShellRead { light }).1
                == WatcherAction::RefreshIcons
            &&& refreshed_readings(initial_light, next).last() == light
            &&& run_state(initial_light, next) == light
        }),
{
    lemma_refreshes_alternate(initial_light, events);
    let light = !last_reading(initial_light, events);
    let next = events.push(WatcherEvent::ShellRead { light });
    assert(next.drop_last() == events);
}

} // verus!
