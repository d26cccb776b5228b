use vstd::prelude::*;

use crate::observation::{wind_details, wind_text, ObservationData};

verus! {

/// Seconds between two automatic refreshes.
pub const TICK_INTERVAL_SECS: u64 = 60;

/// An event handed to the state machine.
#[derive(Clone, Debug)]
pub enum Message {
    /// The periodic refresh timer fired.
    Tick,
    /// The user clicked the panel button.
    ToggleWindow,
    /// The host reports that the popup with this handle was closed.
    PopupClosed(u64),
    /// A fetch completed with this observation.
    UpdateObservation(ObservationData),
    /// The user edited the latitude field.
    UpdateLatitude(String),
    /// The user edited the longitude field.
    UpdateLongitude(String),
    /// The user switched the unit preference.
    ToggleFahrenheit(bool),
}

/// What the host must do with the popup surface.
#[derive(Clone, Copy, Debug, PartialEq, Eq)]
pub enum PopupCommand {
    Unchanged,
    /// Show a new popup under this handle.
    Open(u64),
    /// Destroy the popup with this handle.
    Destroy(u64),
}

/// A settings commit. It is applied to the settings in memory in every case,
/// and written through to durable storage where a config store is attached.
/// A coordinate is handed over as the text the user typed; it commits as a
/// number, zero where the text is not one.
#[derive(Clone, Debug)]
pub enum Persist {
    Latitude(String),
    Longitude(String),
    UseFahrenheit(bool),
}

/// The outbound work that one event asks for.
#[derive(Clone, Debug)]
pub struct Effect {
    /// One fetch of the current observation is to be started.
    pub fetch: bool,
    pub popup: PopupCommand,
    pub persist: Option<Persist>,
}

/// The icon shown beside the wind text.
#[derive(Clone, Copy, Debug, PartialEq, Eq)]
pub enum SkyIcon {
    Sun,
    Moon,
}

/// The applet's state.
pub struct Weather {
    /// Handle of the open popup; `None` while it is closed.
    pub popup: Option<u64>,
    /// The handle that the next opened popup gets.
    pub next_popup: u64,
    pub observation: ObservationData,
    /// Latitude as typed.
    pub latitude: String,
    /// Longitude as typed.
    pub longitude: String,
    pub use_fahrenheit: bool,
}

/// Whether `msg` starts one fetch.
pub open spec fn requests_fetch(msg: Message) -> bool {
    match msg {
        Message::Tick | Message::UpdateLatitude(_) | Message::UpdateLongitude(_) => true,
        _ => false,
    }
}

/// The popup slot after `msg`, from the slot before it and the next fresh handle.
pub open spec fn popup_after(popup: Option<u64>, fresh: u64, msg: Message) -> Option<u64> {
    match msg {
        Message::ToggleWindow => match popup {
            Some(_) => None,
            None => Some(fresh),
        },
        Message::PopupClosed(id) => if popup == Some(id) {
            None
        } else {
            popup
        },
        _ => popup,
    }
}

/// The popup request that `msg` makes.
pub open spec fn popup_command(popup: Option<u64>, fresh: u64, msg: Message) -> PopupCommand {
    match msg {
        Message::ToggleWindow => match popup {
            Some(h) => PopupCommand::Destroy(h),
            None => PopupCommand::Open(fresh),
        },
        _ => PopupCommand::Unchanged,
    }
}

/// `p` is the settings commit that `msg` makes.
pub open spec fn persist_of(p: Option<Persist>, msg: Message) -> bool {
    match msg {
        Message::UpdateLatitude(t) => p matches Some(Persist::Latitude(v)) && v@ == t@,
        Message::UpdateLongitude(t) => p matches Some(Persist::Longitude(v)) && v@ == t@,
        Message::ToggleFahrenheit(b) => p == Some(Persist::UseFahrenheit(b)),
        _ => p is None,
    }
}

/// The latitude text after `msg`.
pub open spec fn latitude_after(old: Seq<char>, msg: Message) -> Seq<char> {
    match msg {
        Message::UpdateLatitude(t) => t@,
        _ => old,
    }
}

/// The longitude text after `msg`.
pub open spec fn longitude_after(old: Seq<char>, msg: Message) -> Seq<char> {
    match msg {
        Message::UpdateLongitude(t) => t@,
        _ => old,
    }
}

/// The unit preference after `msg`.
pub open spec fn fahrenheit_after(old: bool, msg: Message) -> bool {
    match msg {
        Message::ToggleFahrenheit(b) => b,
        _ => old,
    }
}

/// `o` is the observation held after `msg`, `prev` the one held before.
pub open spec fn observation_after(o: ObservationData, prev: ObservationData, msg: Message) -> bool {
    match msg {
        Message::UpdateObservation(n) => o == n,
        _ => o == prev,
    }
}

/// The next fresh handle after `msg`.
pub open spec fn fresh_after(popup: Option<u64>, fresh: u64, msg: Message) -> u64 {
    match msg {
        Message::ToggleWindow => match popup {
            Some(_) => fresh,
            None => (if fresh == u64::MAX {
                0
            } else {
                fresh + 1
            }) as u64,
        },
        _ => fresh,
    }
}

impl Weather {
    /// The state at start-up, and the first event to feed back (a refresh).
    pub fn init(latitude: String, longitude: String, use_fahrenheit: bool) -> (r: (Weather, Message))
        ensures
            r.0.popup is None,
            r.0.next_popup == 0,
            r.0.observation.is_no_data(),
            r.0.latitude@ == latitude@,
            r.0.longitude@ == longitude@,
            r.0.use_fahrenheit == use_fahrenheit,
            r.1 is Tick,
    {
        let w = Weather {
            popup: None,
            next_popup: 0,
            observation: ObservationData::default(),
            latitude,
            longitude,
            use_fahrenheit,
        };
        (w, Message::Tick)
    }

    /// Applies one event: updates the state and returns the work it asks for.
    pub fn update(&mut self, msg: Message) -> (eff: Effect)
        ensures
            eff.fetch == requests_fetch(msg),
            eff.popup == popup_command(old(self).popup, old(self).next_popup, msg),
            persist_of(eff.persist, msg),
            final(self).popup == popup_after(old(self).popup, old(self).next_popup, msg),
            final(self).next_popup == fresh_after(old(self).popup, old(self).next_popup, msg),
            observation_after(final(self).observation, old(self).observation, msg),
            final(self).latitude@ == latitude_after(old(self).latitude@, msg),
            final(self).longitude@ == longitude_after(old(self).longitude@, msg),
            final(self).use_fahrenheit == fahrenheit_after(old(self).use_fahrenheit, msg),
    {
        match msg {
            Message::Tick => Effect { fetch: true, popup: PopupCommand::Unchanged, persist: None },
            Message::ToggleWindow => {
                match self.popup {
                    Some(id) => {
                        self.popup = None;
                        Effect { fetch: false, popup: PopupCommand::Destroy(id), persist: None }
                    },
                    None => {
                        let id = self.next_popup;
                        self.popup = Some(id);
                        self.next_popup = id.wrapping_add(1);
                        Effect { fetch: false, popup: PopupCommand::Open(id), persist: None }
                    },
                }
            },
            Message::PopupClosed(id) => {
                if self.popup == Some(id) {
                    self.popup = None;
                }
                Effect { fetch: false, popup: PopupCommand::Unchanged, persist: None }
            },
            Message::UpdateObservation(value) => {
                self.observation = value;
                Effect { fetch: false, popup: PopupCommand::Unchanged, persist: None }
            },
            Message::UpdateLatitude(value) => {
                let persist = Some(Persist::Latitude(value.clone()));
                self.latitude = value;
                Effect { fetch: true, popup: PopupCommand::Unchanged, persist }
            },
            Message::UpdateLongitude(value) => {
                let persist = Some(Persist::Longitude(value.clone()));
                self.longitude = value;
                Effect { fetch: true, popup: PopupCommand::Unchanged, persist }
            },
            Message::ToggleFahrenheit(value) => {
                self.use_fahrenheit = value;
                let persist = Some(Persist::UseFahrenheit(value));
                Effect { fetch: false, popup: PopupCommand::Unchanged, persist }
            },
        }
    }

    /// The wind text of the current observation.
    pub fn format_wind_details(&self) -> (r: String)
        ensures
            r@ == wind_text(
                self.observation.wind_dir@,
                self.observation.wind_spd_kt,
                self.observation.gust_kt,
            ),
    {
        wind_details(&self.observation)
    }
}

/// The icon for an hour of the day: the sun from 6:00 to 17:59, else the moon.
pub open spec fn sky_icon_of(hour: u32) -> SkyIcon {
    if 6 <= hour < 18 {
        SkyIcon::Sun
    } else {
        SkyIcon::Moon
    }
}

/// The icon for an hour of the day.
pub fn icon_for_hour(hour: u32) -> (r: SkyIcon)
    ensures
        r == sky_icon_of(hour),
{
    if 6 <= hour && hour < 18 {
        SkyIcon::Sun
    } else {
        SkyIcon::Moon
    }
}

/// Closing is matched by identity: a popup opened from the closed state gets
/// handle `fresh`; a close notice for any other handle leaves it open; a close
/// notice for `fresh` closes it; a second such notice changes nothing.
pub proof fn lemma_stale_close_ignored(fresh: u64, next: u64, other: u64)
    requires
        other != fresh,
    ensures
        popup_after(None, fresh, Message::ToggleWindow) == Some(fresh),
        popup_after(Some(fresh), next, Message::PopupClosed(other)) == Some(fresh),
        popup_after(Some(fresh), next, Message::PopupClosed(fresh)) is None,
        popup_after(None, next, Message::PopupClosed(fresh)) is None,
{
}

/// Toggling flips the popup slot: from closed it opens under the fresh
/// handle; from open it closes and asks to destroy the handle that was open.
pub proof fn lemma_toggle_flips(popup: Option<u64>, fresh: u64)
    ensures
        popup is None ==> popup_after(popup, fresh, Message::ToggleWindow) == Some(fresh)
            && popup_command(popup, fresh, Message::ToggleWindow) == PopupCommand::Open(fresh),
        popup matches Some(h) ==> popup_after(popup, fresh, Message::ToggleWindow) is None
            && popup_command(popup, fresh, Message::ToggleWindow) == PopupCommand::Destroy(h),
{
}

/// Every refresh tick and every coordinate edit starts exactly one fetch;
/// no other event starts one.
pub proof fn lemma_fetch_scheduling(msg: Message)
    ensures
        requests_fetch(msg) <==> (msg is Tick || msg is UpdateLatitude || msg is UpdateLongitude),
        msg is ToggleFahrenheit ==> !requests_fetch(msg),
        msg is PopupClosed ==> !requests_fetch(msg),
        msg is ToggleWindow ==> !requests_fetch(msg),
        msg is UpdateObservation ==> !requests_fetch(msg),
{
}

/// A latitude edit, whatever its text, replaces the typed latitude, leaves the
/// popup and the other settings alone, starts one fetch, and hands over that
/// exact text to commit.
pub proof fn lemma_latitude_edit(
    popup: Option<u64>,
    fresh: u64,
    lat: Seq<char>,
    lon: Seq<char>,
    fahrenheit: bool,
    text: String,
    p: Option<Persist>,
)
    requires
        persist_of(p, Message::UpdateLatitude(text)),
    ensures
        latitude_after(lat, Message::UpdateLatitude(text)) == text@,
        longitude_after(lon, Message::UpdateLatitude(text)) == lon,
        fahrenheit_after(fahrenheit, Message::UpdateLatitude(text)) == fahrenheit,
        popup_after(popup, fresh, Message::UpdateLatitude(text)) == popup,
        requests_fetch(Message::UpdateLatitude(text)),
        p matches Some(Persist::Latitude(v)) && v@ == text@,
{
}

} // verus!
