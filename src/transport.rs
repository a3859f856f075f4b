use vstd::prelude::*;

verus! {

/// Playback speed of 1.0, in thousandths of the normal rate.
pub const NORMAL_SPEED: u32 = 1000;

#[derive(Clone, Copy, Debug, PartialEq, Eq, Structural)]
pub enum PlaybackStatus {
    Paused,
    Playing,
}

/// Transport state of a file source.
///
/// Times are nanoseconds; `speed` is in thousandths of the normal rate.
/// `last_update` is the clock reading (nanoseconds) of the position anchor
/// and `position_at_last_update` the position recorded with it.
#[derive(Clone, Copy, Debug, PartialEq, Eq, Structural)]
pub struct PlaybackInfo {
    pub status: PlaybackStatus,
    pub speed: u32,
    pub position: u64,
    pub duration: u64,
    pub seek_to: Option<u64>,
    pub last_update: Option<u64>,
    pub position_at_last_update: u64,
}

/// What the sink reports before the transport is applied.
#[derive(Clone, Copy, Debug, PartialEq, Eq, Structural)]
pub struct SinkState {
    pub paused: bool,
    pub speed: u32,
}

/// Commands for the sink, to be carried out in field order: resume or
/// pause, then the new speed, then the reload for a seek, after which the
/// sink plays when `reload_playing` holds and pauses otherwise.
#[derive(Clone, Copy, Debug, PartialEq, Eq, Structural)]
pub struct TransportPlan {
    pub resume: bool,
    pub pause: bool,
    pub set_speed: Option<u32>,
    pub reload_at: Option<u64>,
    pub reload_playing: bool,
}

/// The position reached from an anchor: `anchor_pos` plus the time elapsed
/// since `anchor_time`, scaled by `speed` thousandths, capped at the largest
/// representable time. A clock reading before the anchor counts as no time.
pub open spec fn advanced(anchor_pos: u64, anchor_time: u64, now: u64, speed: u32) -> nat {
    let elapsed: nat = if now >= anchor_time {
        (now - anchor_time) as nat
    } else {
        0
    };
    let p: nat = anchor_pos as nat + elapsed * speed as nat / 1000;
    if p > u64::MAX {
        u64::MAX as nat
    } else {
        p
    }
}

/// The defaults a fresh source starts from.
pub open spec fn is_reset(info: PlaybackInfo) -> bool {
    &&& info.status == PlaybackStatus::Paused
    &&& info.speed == NORMAL_SPEED
    &&& info.position == 0
    &&& info.duration == 0
    &&& info.seek_to.is_none()
    &&& info.last_update.is_none()
    &&& info.position_at_last_update == 0
}

/// A new anchor at `now`, taken at the current position.
pub open spec fn anchored_at(info: PlaybackInfo, now: u64) -> PlaybackInfo {
    PlaybackInfo { last_update: Some(now), position_at_last_update: info.position, ..info }
}

/// The position frozen from the anchor, if there is one, and the anchor cleared.
pub open spec fn frozen(info: PlaybackInfo, now: u64, speed: u32) -> PlaybackInfo {
    let position: u64 = match info.last_update {
        Some(t) => advanced(info.position_at_last_update, t, now, speed) as u64,
        None => info.position,
    };
    PlaybackInfo { position, last_update: None, ..info }
}

/// First rule: bring the sink in line with the requested status.
pub open spec fn status_applied(info: PlaybackInfo, sink: SinkState, now: u64) -> PlaybackInfo {
    if info.status == PlaybackStatus::Playing && sink.paused {
        anchored_at(info, now)
    } else if info.status == PlaybackStatus::Paused && !sink.paused {
        frozen(info, now, sink.speed)
    } else {
        info
    }
}

/// Second rule: on a speed change while the sink plays, re-anchor at the
/// position reached under the old speed.
pub open spec fn speed_applied(info: PlaybackInfo, sink: SinkState, now: u64) -> PlaybackInfo {
    if sink.speed != info.speed && info.status == PlaybackStatus::Playing {
        anchored_at(frozen(info, now, sink.speed), now)
    } else {
        info
    }
}

/// Third rule: a pending seek is consumed; on a file source the position
/// becomes the target, with a fresh anchor when playing.
pub open spec fn seek_applied(info: PlaybackInfo, file_selected: bool, now: u64) -> PlaybackInfo {
    match info.seek_to {
        Some(t) if file_selected => PlaybackInfo {
            position: t,
            position_at_last_update: t,
            seek_to: None,
            last_update: if info.status == PlaybackStatus::Playing {
                Some(now)
            } else {
                None
            },
            ..info
        },
        _ => PlaybackInfo { seek_to: None, ..info },
    }
}

/// Computes `advanced` for the anchor values given.
fn advance(anchor_pos: u64, anchor_time: u64, now: u64, speed: u32) -> (r: u64)
    ensures
        r as nat == advanced(anchor_pos, anchor_time, now, speed),
{
    let elapsed: u64 = if now >= anchor_time {
        now - anchor_time
    } else {
        0
    };
    assert((elapsed as nat) * (speed as nat) <= (u64::MAX as nat) * (u32::MAX as nat))
        by (nonlinear_arith)
        requires
            elapsed <= u64::MAX,
            speed <= u32::MAX,
    ;
    let scaled: u128 = (elapsed as u128) * (speed as u128) / 1000;
    let p: u128 = anchor_pos as u128 + scaled;
    if p > u64::MAX as u128 {
        u64::MAX
    } else {
        p as u64
    }
}

impl PlaybackInfo {
    pub fn new() -> (r: Self)
        ensures
            is_reset(r),
    {
        PlaybackInfo {
            status: PlaybackStatus::Paused,
            speed: NORMAL_SPEED,
            position: 0,
            duration: 0,
            seek_to: None,
            last_update: None,
            position_at_last_update: 0,
        }
    }

    /// Returns the transport to its defaults: paused, normal speed, at zero,
    /// of zero duration, with no pending seek and no anchor.
    pub fn reset(&mut self)
        ensures
            is_reset(*final(self)),
    {
        *self = PlaybackInfo::new();
    }

    /// Marks a freshly opened file of `duration` as playing from zero,
    /// anchored at `now`.
    pub fn start_file(&mut self, duration: u64, now: u64)
        ensures
            *final(self) == (PlaybackInfo {
                status: PlaybackStatus::Playing,
                duration,
                position: 0,
                last_update: Some(now),
                position_at_last_update: 0,
                ..*old(self)
            }),
    {
        self.duration = duration;
        self.status = PlaybackStatus::Playing;
        self.position = 0;
        self.last_update = Some(now);
        self.position_at_last_update = 0;
    }
}

/// Advances the position from the anchor while playing; at the end of a
/// file of known duration the position stops at the duration and playback
/// pauses.
pub fn update_playback_position(info: &mut PlaybackInfo, now: u64, sink_speed: u32)
    ensures
        ({
            let o = *old(info);
            match o.last_update {
                Some(t) if o.status == PlaybackStatus::Playing => {
                    let p = advanced(o.position_at_last_update, t, now, sink_speed);
                    if p >= o.duration && o.duration != 0 {
                        *final(info) == (PlaybackInfo {
                            position: o.duration,
                            status: PlaybackStatus::Paused,
                            last_update: None,
                            ..o
                        })
                    } else {
                        *final(info) == (PlaybackInfo { position: p as u64, ..o })
                    }
                },
                _ => *final(info) == o,
            }
        }),
{
    if let PlaybackStatus::Playing = info.status {
        if let Some(t) = info.last_update {
            let p = advance(info.position_at_last_update, t, now, sink_speed);
            if p >= info.duration && info.duration != 0 {
                info.position = info.duration;
                info.status = PlaybackStatus::Paused;
                info.last_update = None;
            } else {
                info.position = p;
            }
        }
    }
}

/// Applies the requested transport state to the sink.
///
/// In order: a playing request resumes a paused sink with a fresh anchor,
/// a paused request pauses a playing sink and freezes the position; a speed
/// change while playing re-anchors at the position reached under the old
/// speed; a pending seek is consumed and, on a file source, reloads the file
/// at the target, which becomes the position.
pub fn apply_playback_changes(
    info: &mut PlaybackInfo,
    sink: SinkState,
    file_selected: bool,
    now: u64,
) -> (r: TransportPlan)
    ensures
        *final(info) == seek_applied(
            speed_applied(status_applied(*old(info), sink, now), sink, now),
            file_selected,
            now,
        ),
        r.resume == (old(info).status == PlaybackStatus::Playing && sink.paused),
        r.pause == (old(info).status == PlaybackStatus::Paused && !sink.paused),
        r.set_speed == if sink.speed != old(info).speed {
            Some(old(info).speed)
        } else {
            None
        },
        r.reload_at == if file_selected {
            old(info).seek_to
        } else {
            None
        },
        r.reload_playing == (old(info).status == PlaybackStatus::Playing),
        final(info).seek_to.is_none(),
        final(info).speed == old(info).speed,
        final(info).status == old(info).status,
        file_selected && old(info).seek_to.is_some() ==> final(info).position
            == old(info).seek_to.unwrap(),
{
    let playing = match info.status {
        PlaybackStatus::Playing => true,
        PlaybackStatus::Paused => false,
    };
    let resume = playing && sink.paused;
    let pause = !playing && !sink.paused;
    if resume {
        info.last_update = Some(now);
        info.position_at_last_update = info.position;
    } else if pause {
        if let Some(t) = info.last_update {
            info.position = advance(info.position_at_last_update, t, now, sink.speed);
        }
        info.last_update = None;
    }
    let set_speed = if sink.speed != info.speed {
        if playing {
            if let Some(t) = info.last_update {
                info.position = advance(info.position_at_last_update, t, now, sink.speed);
            }
            info.last_update = Some(now);
            info.position_at_last_update = info.position;
        }
        Some(info.speed)
    } else {
        None
    };
    let seek = info.seek_to;
    info.seek_to = None;
    let mut reload_at: Option<u64> = None;
    if let Some(t) = seek {
        if file_selected {
            reload_at = Some(t);
            info.position = t;
            info.position_at_last_update = t;
            info.last_update = if playing {
                Some(now)
            } else {
                None
            };
        }
    }
    TransportPlan { resume, pause, set_speed, reload_at, reload_playing: playing }
}

} // verus!
