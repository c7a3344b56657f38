use vstd::prelude::*;

verus! {

/// The number of display refreshes between selected updates for a refresh
/// rate given in millihertz: one below the 60 Hz ceiling, more above it.
pub open spec fn refresh_stride(refresh_millihertz: u32) -> int {
    let rate = if refresh_millihertz < 1 { 1int } else { refresh_millihertz as int };
    (rate + 59_999) / 60_000
}

/// Whether a frame at `frame_micros` is due after the last selected update.
pub open spec fn update_is_due(
    last_update_micros: Option<i64>,
    frame_micros: i64,
    refresh_millihertz: u32,
) -> bool {
    let rate = if refresh_millihertz < 1 { 1int } else { refresh_millihertz as int };
    match last_update_micros {
        None => true,
        Some(last) => {
            &&& frame_micros > last
            &&& !(rate > 60_000 && (frame_micros - last) * rate * 2 < (2 * refresh_stride(
                refresh_millihertz,
            ) - 1) * 1_000_000_000)
        },
    }
}

/// Selects evenly spaced display refreshes without accumulating delayed work.
#[derive(Debug, Default)]
pub struct FramePacing {
    last_update_micros: Option<i64>,
}

impl View for FramePacing {
    type V = Option<i64>;

    /// The time of the last selected update, if any.
    closed spec fn view(&self) -> Option<i64> {
        self.last_update_micros
    }
}

impl FramePacing {
    pub fn new() -> (pacing: Self)
        ensures
            pacing@ == None::<i64>,
    {
        Self { last_update_micros: None }
    }

    /// Select from delivered display frames. Below the ceiling, every new
    /// frame is eligible; above it, frames closer than half a refresh short of
    /// the stride are skipped. A selected frame becomes the new reference.
    pub fn update_due(&mut self, frame_micros: i64, refresh_millihertz: u32) -> (due: bool)
        ensures
            due == update_is_due(old(self)@, frame_micros, refresh_millihertz),
            final(self)@ == (if due {
                Some(frame_micros)
            } else {
                old(self)@
            }),
    {
        let rate: u32 = if refresh_millihertz < 1 { 1 } else { refresh_millihertz };
        let stride: u32 = rate / 60_000 + if rate % 60_000 == 0 { 0 } else { 1 };
        assert(stride == refresh_stride(refresh_millihertz));
        if let Some(last) = self.last_update_micros {
            if frame_micros <= last {
                return false;
            }
            if rate > 60_000 {
                let elapsed: i128 = frame_micros as i128 - last as i128;
                assert(0 < elapsed < 0x1_0000_0000_0000_0000);
                assert(0 <= elapsed * (rate as i128) < 0x1_0000_0000_0000_0000 * 0x1_0000_0000)
                    by (nonlinear_arith)
                    requires
                        0 < elapsed < 0x1_0000_0000_0000_0000,
                        rate < 0x1_0000_0000,
                ;
                let scaled: i128 = elapsed * (rate as i128) * 2;
                let threshold: i128 = (2 * (stride as i128) - 1) * 1_000_000_000;
                if scaled < threshold {
                    return false;
                }
            }
        }
        self.last_update_micros = Some(frame_micros);
        true
    }
}

/// A frame at or before the last selected update is never due again, so
/// missed or repeated timestamps cannot replay an update.
pub proof fn lemma_no_replay(last: i64, frame_micros: i64, refresh_millihertz: u32)
    requires
        frame_micros <= last,
    ensures
        !update_is_due(Some(last), frame_micros, refresh_millihertz),
{
}

/// At or below the 60 Hz ceiling every strictly newer frame is due.
pub proof fn lemma_every_new_frame_at_or_below_ceiling(
    last: i64,
    frame_micros: i64,
    refresh_millihertz: u32,
)
    requires
        frame_micros > last,
        refresh_millihertz <= 60_000,
    ensures
        update_is_due(Some(last), frame_micros, refresh_millihertz),
{
}

/// Updates are evenly spaced: when a frame arrives `refreshes` display
/// refreshes after the last selected update, give or take less than half a
/// refresh of timestamp jitter, it is due exactly when `refreshes` has
/// reached the stride. Jitter cannot make the selected stride alternate.
pub proof fn lemma_selects_every_stride_refresh(
    last: i64,
    frame_micros: i64,
    refresh_millihertz: u32,
    refreshes: int,
)
    requires
        frame_micros > last,
        refreshes >= 1,
        ({
            let rate = if refresh_millihertz < 1 { 1int } else { refresh_millihertz as int };
            let offset = 2 * ((frame_micros - last) * rate) - 2 * refreshes * 1_000_000_000;
            -1_000_000_000 < offset < 1_000_000_000
        }),
    ensures
        update_is_due(Some(last), frame_micros, refresh_millihertz) <==> refreshes
            >= refresh_stride(refresh_millihertz),
{
    let rate = if refresh_millihertz < 1 { 1int } else { refresh_millihertz as int };
    let stride = refresh_stride(refresh_millihertz);
    assert((frame_micros - last) * rate * 2 == 2 * ((frame_micros - last) * rate))
        by (nonlinear_arith);
    if rate <= 60_000 {
        assert(stride == 1);
    }
}

} // verus!
