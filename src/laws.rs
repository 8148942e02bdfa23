use crate::controller::{run_mode_writes, EKitView, PeripheralWrite};
use crate::ekit::{system_mode_of, EKitSystemRunMode, EKitUserRunMode};
use crate::overtemperature_protection::{
    cooldown_enter, cooldown_exit, forced_mode, OvertemperatureProtection,
};
use crate::temperature::{base_value, Temperature};
use vstd::prelude::*;

verus! {

/// The protection state after a series of readings, oldest first.
pub open spec fn after_readings(
    p: OvertemperatureProtection,
    readings: Seq<Temperature>,
) -> OvertemperatureProtection
    decreases readings.len(),
{
    if readings.len() == 0 {
        p
    } else {
        after_readings(p.after_reading(Some(readings[0])), readings.drop_first())
    }
}

/// The controller state after a series of output writes, oldest first.
pub open spec fn written_all(v: EKitView, ws: Seq<PeripheralWrite>) -> EKitView
    decreases ws.len(),
{
    if ws.len() == 0 {
        v
    } else {
        written_all(v.written(ws[0]), ws.drop_first())
    }
}

/// Inactive protection stays inactive on every reading below the entry threshold,
/// and becomes active on every reading at or above it.
pub proof fn lemma_inactive_protection_enters_at_threshold(
    p: OvertemperatureProtection,
    t: Temperature,
)
    requires
        !p.is_active,
    ensures
        base_value(t) < base_value(cooldown_enter()) ==> !p.after_reading(Some(t)).is_active,
        base_value(t) >= base_value(cooldown_enter()) ==> p.after_reading(Some(t)).is_active,
{
}

/// Active protection stays active on every reading above the exit threshold. On a
/// reading at or below it, protection becomes inactive and forces `Off` once; after
/// any further readings that stay below the entry threshold it forces nothing.
pub proof fn lemma_active_protection_exits_at_threshold(
    p: OvertemperatureProtection,
    t: Temperature,
    later: Seq<Temperature>,
)
    requires
        p.is_active,
    ensures
        base_value(t) > base_value(cooldown_exit()) ==> p.after_reading(Some(t)).is_active,
        base_value(t) <= base_value(cooldown_exit()) ==> {
            let q = p.after_reading(Some(t));
            &&& !q.is_active
            &&& forced_mode(q) == Some(EKitSystemRunMode::Off)
            &&& (later.len() > 0 && forall|i: int|
                0 <= i < later.len() ==> base_value(#[trigger] later[i]) < base_value(
                    cooldown_enter(),
                )) ==> forced_mode(after_readings(q, later)) == None::<EKitSystemRunMode>
        },
{
    if base_value(t) <= base_value(cooldown_exit()) {
        let q = p.after_reading(Some(t));
        if later.len() > 0 && forall|i: int|
            0 <= i < later.len() ==> base_value(#[trigger] later[i]) < base_value(
                cooldown_enter(),
            ) {
            let r = q.after_reading(Some(later[0]));
            assert(!r.is_active && !r.was_active);
            lemma_quiet_protection_stays_quiet(r, later.drop_first());
        }
    }
}

/// Protection that is neither active nor was active stays so on readings below the
/// entry threshold.
proof fn lemma_quiet_protection_stays_quiet(p: OvertemperatureProtection, readings: Seq<Temperature>)
    requires
        !p.is_active,
        !p.was_active,
        forall|i: int|
            0 <= i < readings.len() ==> base_value(#[trigger] readings[i]) < base_value(
                cooldown_enter(),
            ),
    ensures
        !after_readings(p, readings).is_active,
        !after_readings(p, readings).was_active,
    decreases readings.len(),
{
    if readings.len() > 0 {
        let rest = readings.drop_first();
        assert forall|i: int| 0 <= i < rest.len() implies base_value(#[trigger] rest[i])
            < base_value(cooldown_enter()) by {
            assert(rest[i] == readings[i + 1]);
        }
        lemma_quiet_protection_stays_quiet(p.after_reading(Some(readings[0])), rest);
    }
}

/// A missing reading makes protection active, whatever its state before.
pub proof fn lemma_missing_reading_activates(p: OvertemperatureProtection)
    ensures
        p.after_reading(None).is_active,
        forced_mode(p.after_reading(None)) == Some(EKitSystemRunMode::Cooldown),
{
}

/// In cooldown, a request for any run mode changes nothing: not the run mode, not
/// the protection, and no output is written.
pub proof fn lemma_cooldown_ignores_requests(
    v: EKitView,
    mode: EKitSystemRunMode,
    user_mode: EKitUserRunMode,
)
    requires
        v.run_mode == EKitSystemRunMode::Cooldown,
    ensures
        v.after_request(mode) == v,
        v.after_request(system_mode_of(user_mode)) == v,
{
}

/// Outside cooldown, a request for `Off` enters `Cooldown` (fan on, both coils off)
/// and not `Off`, whatever the temperature.
pub proof fn lemma_off_request_cools_down_first(v: EKitView)
    requires
        v.run_mode != EKitSystemRunMode::Cooldown,
    ensures
        v.after_request(EKitSystemRunMode::Off) == v.entered(EKitSystemRunMode::Cooldown)
            .protection_entered(),
        v.after_request(EKitSystemRunMode::Off).run_mode == EKitSystemRunMode::Cooldown,
        v.after_request(EKitSystemRunMode::Off).fan_on,
        !v.after_request(EKitSystemRunMode::Off).coil1_on,
        !v.after_request(EKitSystemRunMode::Off).coil2_on,
        v.after_request(EKitSystemRunMode::Off).writes == v.writes + run_mode_writes(
            EKitSystemRunMode::Cooldown,
        ),
{
}

/// Outputs that match the run mode never have a heating coil on without the fan,
/// and every request, reading and re-evaluation keeps the outputs matching the mode.
pub proof fn lemma_outputs_stay_safe(
    v: EKitView,
    mode: EKitSystemRunMode,
    requested: Option<EKitSystemRunMode>,
    reading: Option<Temperature>,
)
    requires
        v.outputs_match_mode(),
    ensures
        v.heat_has_airflow(),
        v.entered(mode).outputs_match_mode(),
        v.updated(requested).outputs_match_mode(),
        v.after_request(mode).outputs_match_mode(),
        v.after_reading(reading).outputs_match_mode(),
{
}

/// Entering a run mode is making its writes one by one, and no write on the way
/// leaves a heating coil on without the fan, if none was before.
pub proof fn lemma_mode_writes_keep_airflow(v: EKitView, mode: EKitSystemRunMode, k: int)
    requires
        v.heat_has_airflow(),
        0 <= k <= run_mode_writes(mode).len(),
    ensures
        written_all(v, run_mode_writes(mode)) == (EKitView { run_mode: v.run_mode, ..v.entered(mode) }),
        written_all(v, run_mode_writes(mode).take(k)).heat_has_airflow(),
{
    let ws = run_mode_writes(mode);
    reveal_with_fuel(written_all, 4);
    assert(ws.drop_first().drop_first().drop_first() =~= Seq::<PeripheralWrite>::empty());
    assert(ws.take(0).len() == 0);
    assert(ws.take(1).drop_first() =~= Seq::<PeripheralWrite>::empty());
    assert(ws.take(2).drop_first().drop_first() =~= Seq::<PeripheralWrite>::empty());
    assert(ws.take(2).drop_first() =~= ws.drop_first().take(1));
    assert(ws.take(3) =~= ws);
    assert(v.writes.push(ws[0]).push(ws[1]).push(ws[2]) =~= v.writes + ws);
}

} // verus!
