//! Whole runs: where a series of fetches leads, and what is printed on the
//! way.

use crate::config::RunConfig;
use crate::record::RecordView;
use crate::scraper::{
    consistent, farewell_of, initial, on_resume, on_success, step, ExitSignal, Farewell, Notice,
    Phase, Session,
};
use vstd::prelude::*;

verus! {

/// The state after a series of fetches, each preceded by the end of the
/// pause before it, and the notices printed on the way.
pub open spec fn replay(config: RunConfig, s: Session, fetches: Seq<Option<RecordView>>) -> (
    Session,
    Seq<Notice>,
)
    decreases fetches.len(),
{
    if fetches.len() == 0 {
        (s, Seq::empty())
    } else {
        let (next, said) = step(config, on_resume(s), fetches[0]);
        let (last, rest) = replay(config, next, fetches.drop_first());
        (last, said + rest)
    }
}

/// `n` failed fetches in a row.
pub open spec fn failures(n: nat) -> Seq<Option<RecordView>> {
    Seq::new(n, |i: int| None)
}

/// The same notice `n` times.
pub open spec fn repeated(notice: Notice, n: nat) -> Seq<Notice> {
    Seq::new(n, |i: int| notice)
}

/// How often `notice` stands in `said`.
pub open spec fn occurrences(said: Seq<Notice>, notice: Notice) -> nat
    decreases said.len(),
{
    if said.len() == 0 {
        0
    } else if said.last() == notice {
        occurrences(said.drop_last(), notice) + 1
    } else {
        occurrences(said.drop_last(), notice)
    }
}

/// A fetch is due, now or after the pause that is running.
pub open spec fn polling(s: Session) -> bool {
    s.phase == Phase::Scraping || s.phase == Phase::Waiting
}

/// Every step keeps a state consistent: no more records are collected than
/// were looked through, the retry budget stays within its limit, and a run
/// that has not ended has reached neither bound.
pub proof fn steps_keep_consistency(config: RunConfig, s: Session, fetched: Option<RecordView>)
    requires
        consistent(config, s),
    ensures
        consistent(config, initial(config)),
        consistent(config, step(config, s, fetched).0),
        consistent(config, on_resume(s)),
{
}

/// Every state of a run is consistent, whatever is fetched: at no time are
/// more records collected than were looked through.
pub proof fn runs_stay_consistent(config: RunConfig, fetches: Seq<Option<RecordView>>)
    ensures
        consistent(config, replay(config, initial(config), fetches).0),
        replay(config, initial(config), fetches).0.emails.len() <= replay(
            config,
            initial(config),
            fetches,
        ).0.searched,
{
    replay_keeps_consistency(config, initial(config), fetches);
}

/// A series of fetches leads from a consistent state to a consistent state.
pub proof fn replay_keeps_consistency(
    config: RunConfig,
    s: Session,
    fetches: Seq<Option<RecordView>>,
)
    requires
        consistent(config, s),
    ensures
        consistent(config, replay(config, s, fetches).0),
    decreases fetches.len(),
{
    if fetches.len() > 0 {
        steps_keep_consistency(config, s, fetches[0]);
        steps_keep_consistency(config, on_resume(s), fetches[0]);
        replay_keeps_consistency(
            config,
            step(config, on_resume(s), fetches[0]).0,
            fetches.drop_first(),
        );
    }
}

/// A fetch that brings a record restores the whole retry budget, and counts
/// as one more record looked through.
pub proof fn success_restores_retries(config: RunConfig, s: Session, record: RecordView)
    requires
        s.phase == Phase::Scraping || s.phase == Phase::Disconnected,
    ensures
        on_success(config, s, record).0.retries == config.retries,
        on_success(config, s, record).0.searched == s.searched + 1,
        on_success(config, s, record).0.emails == if config.filter@.holds(record) {
            s.emails.insert(record)
        } else {
            s.emails
        },
{
}

/// A run that has ended stays as it is, whatever is fetched.
pub proof fn exiting_is_terminal(config: RunConfig, s: Session, fetches: Seq<Option<RecordView>>)
    requires
        s.phase == Phase::Exiting,
    ensures
        replay(config, s, fetches) == (s, Seq::<Notice>::empty()),
    decreases fetches.len(),
{
    if fetches.len() > 0 {
        exiting_is_terminal(config, s, fetches.drop_first());
        assert(Seq::<Notice>::empty() + Seq::<Notice>::empty() =~= Seq::<Notice>::empty());
    }
}

/// A run ends in success where polling stops because a bound is reached; a
/// run that is abandoned ends in failure.
pub proof fn exit_signal_tells_why(config: RunConfig, s: Session, fetched: Option<RecordView>)
    requires
        consistent(config, s),
        s.phase != Phase::Exiting,
        step(config, s, fetched).0.phase == Phase::Exiting,
    ensures
        fetched is Some ==> farewell_of(config, step(config, s, fetched).0).signal
            == ExitSignal::Success,
        fetched is Some ==> farewell_of(config, step(config, s, fetched).0).notice is Some,
        fetched is None ==> farewell_of(config, step(config, s, fetched).0) == (Farewell {
            notice: None,
            signal: ExitSignal::Failure,
        }),
        fetched is None ==> step(config, s, fetched).1 == seq![Notice::Aborting],
{
}

/// Replaying one series after another is replaying both in one go.
pub proof fn replay_in_two_parts(
    config: RunConfig,
    s: Session,
    first: Seq<Option<RecordView>>,
    second: Seq<Option<RecordView>>,
)
    ensures
        replay(config, s, first + second).0 == replay(
            config,
            replay(config, s, first).0,
            second,
        ).0,
        replay(config, s, first + second).1 == replay(config, s, first).1 + replay(
            config,
            replay(config, s, first).0,
            second,
        ).1,
    decreases first.len(),
{
    if first.len() == 0 {
        assert(first + second =~= second);
        assert(Seq::<Notice>::empty() + replay(config, s, second).1 =~= replay(
            config,
            s,
            second,
        ).1);
    } else {
        let (next, said) = step(config, on_resume(s), first[0]);
        assert((first + second).drop_first() =~= first.drop_first() + second);
        assert((first + second)[0] == first[0]);
        replay_in_two_parts(config, next, first.drop_first(), second);
        let a = replay(config, next, first.drop_first());
        let b = replay(config, a.0, second);
        assert(said + (a.1 + b.1) =~= (said + a.1) + b.1);
    }
}

/// While the retry budget lasts, each failed fetch costs one retry and
/// prints the retry notice; nothing else changes, and the connection never
/// counts as lost.
pub proof fn failures_within_budget(config: RunConfig, s: Session, n: nat)
    requires
        polling(s),
        n <= s.retries,
    ensures
        replay(config, s, failures(n)).0 == (Session {
            phase: if n == 0 {
                s.phase
            } else {
                Phase::Waiting
            },
            retries: (s.retries - n) as nat,
            ..s
        }),
        replay(config, s, failures(n)).1 == repeated(Notice::Retrying, n),
    decreases n,
{
    if n == 0 {
        assert(repeated(Notice::Retrying, 0) =~= Seq::<Notice>::empty());
    } else {
        let (next, said) = step(config, on_resume(s), failures(n)[0]);
        assert(failures(n).drop_first() =~= failures((n - 1) as nat));
        failures_within_budget(config, next, (n - 1) as nat);
        assert(seq![Notice::Retrying] + repeated(Notice::Retrying, (n - 1) as nat) =~= repeated(
            Notice::Retrying,
            n,
        ));
    }
}

/// While the connection is lost, each failed fetch prints that the
/// reconnection failed and changes nothing.
pub proof fn failures_while_disconnected(config: RunConfig, s: Session, n: nat)
    requires
        s.phase == Phase::Disconnected,
    ensures
        replay(config, s, failures(n)) == (s, repeated(Notice::FailedToReconnect, n)),
    decreases n,
{
    if n == 0 {
        assert(repeated(Notice::FailedToReconnect, 0) =~= Seq::<Notice>::empty());
    } else {
        assert(failures(n).drop_first() =~= failures((n - 1) as nat));
        failures_while_disconnected(config, s, (n - 1) as nat);
        assert(seq![Notice::FailedToReconnect] + repeated(
            Notice::FailedToReconnect,
            (n - 1) as nat,
        ) =~= repeated(Notice::FailedToReconnect, n));
    }
}

/// A streak of failed fetches no longer than the retry budget, then a fetch
/// that brings a record: every failure is retried, the connection never
/// counts as lost, and the record is taken in as after any other fetch.
pub proof fn short_streak_is_retried(config: RunConfig, s: Session, n: nat, record: RecordView)
    requires
        polling(s),
        n <= s.retries,
    ensures
        forall|k: nat|
            k <= n ==> polling(#[trigger] replay(config, s, failures(k)).0),
        replay(config, s, failures(n).push(Some(record))).0 == on_success(
            config,
            Session { phase: Phase::Scraping, ..s },
            record,
        ).0,
        replay(config, s, failures(n).push(Some(record))).1 == repeated(Notice::Retrying, n),
        occurrences(
            replay(config, s, failures(n).push(Some(record))).1,
            Notice::WillReconnect,
        ) == 0,
{
    occurrences_of_repeated(Notice::Retrying, n, Notice::WillReconnect);
    assert forall|k: nat| k <= n implies polling(#[trigger] replay(config, s, failures(k)).0) by {
        failures_within_budget(config, s, k);
    }
    failures_within_budget(config, s, n);
    let streak = failures(n);
    let last = seq![Some(record)];
    assert(streak.push(Some(record)) =~= streak + last);
    replay_in_two_parts(config, s, streak, last);
    let mid = replay(config, s, streak).0;
    assert(last.drop_first() =~= Seq::<Option<RecordView>>::empty());
    reveal_with_fuel(replay, 2);
    let taken = on_success(config, on_resume(mid), record);
    assert(replay(config, mid, last).1 =~= taken.1);
    assert(repeated(Notice::Retrying, n) + Seq::<Notice>::empty() =~= repeated(
        Notice::Retrying,
        n,
    ));
}

/// A notice stands in two series put together as often as in both.
pub proof fn occurrences_add_up(first: Seq<Notice>, second: Seq<Notice>, notice: Notice)
    ensures
        occurrences(first + second, notice) == occurrences(first, notice) + occurrences(
            second,
            notice,
        ),
    decreases second.len(),
{
    if second.len() == 0 {
        assert(first + second =~= first);
    } else {
        assert((first + second).drop_last() =~= first + second.drop_last());
        occurrences_add_up(first, second.drop_last(), notice);
    }
}

/// A notice said `n` times over stands there `n` times, and no other does.
pub proof fn occurrences_of_repeated(said: Notice, n: nat, notice: Notice)
    ensures
        occurrences(repeated(said, n), notice) == if said == notice {
            n
        } else {
            0
        },
    decreases n,
{
    if n > 0 {
        assert(repeated(said, n).drop_last() =~= repeated(said, (n - 1) as nat));
        occurrences_of_repeated(said, (n - 1) as nat, notice);
    }
}

/// A streak of failed fetches longer than the retry budget, with
/// reconnection configured, then a fetch that brings a record: the budget is
/// retried, the loss of the connection is announced once, each further
/// failure is a failed reconnection, and the record is announced once as the
/// reconnection and taken in.
pub proof fn long_streak_reconnects(config: RunConfig, s: Session, n: nat, record: RecordView)
    requires
        polling(s),
        n > s.retries,
        config.reconnect_ms is Some,
    ensures
        replay(config, s, failures(n)).0 == (Session {
            phase: Phase::Disconnected,
            retries: 0,
            ..s
        }),
        replay(config, s, failures(n).push(Some(record))).0 == on_success(
            config,
            Session { phase: Phase::Disconnected, retries: 0, ..s },
            record,
        ).0,
        replay(config, s, failures(n).push(Some(record))).1 == repeated(
            Notice::Retrying,
            s.retries,
        ) + seq![Notice::WillReconnect] + repeated(
            Notice::FailedToReconnect,
            (n - s.retries - 1) as nat,
        ) + seq![Notice::Reconnected],
        occurrences(
            replay(config, s, failures(n).push(Some(record))).1,
            Notice::WillReconnect,
        ) == 1,
        occurrences(replay(config, s, failures(n).push(Some(record))).1, Notice::Reconnected)
            == 1,
        replay(config, s, failures(n).push(Some(record))).1.last() == Notice::Reconnected,
{
    let t = s.retries;
    let more = (n - t - 1) as nat;
    let lost = Session { phase: Phase::Disconnected, retries: 0, ..s };
    occurrences_around_reconnection(t, more, Notice::WillReconnect);
    occurrences_around_reconnection(t, more, Notice::Reconnected);
    streak_uses_budget_then_loses(config, s, n);
    let last = seq![Some(record)];
    assert(failures(n).push(Some(record)) =~= failures(n) + last);
    replay_in_two_parts(config, s, failures(n), last);
    assert(last.drop_first() =~= Seq::<Option<RecordView>>::empty());
    reveal_with_fuel(replay, 2);
    assert(replay(config, lost, last).1 =~= seq![Notice::Reconnected]);
}

/// A streak of failed fetches longer than the retry budget, without
/// reconnection: the budget is retried, then the run is abandoned. It ends
/// in failure, with the records it had collected before the streak.
pub proof fn long_streak_aborts(config: RunConfig, s: Session, n: nat)
    requires
        consistent(config, s),
        polling(s),
        n > s.retries,
        config.reconnect_ms is None,
    ensures
        replay(config, s, failures(n)).0 == (Session {
            phase: Phase::Exiting,
            retries: 0,
            ..s
        }),
        replay(config, s, failures(n)).1 == repeated(Notice::Retrying, s.retries)
            + seq![Notice::Aborting],
        farewell_of(config, replay(config, s, failures(n)).0) == (Farewell {
            notice: None,
            signal: ExitSignal::Failure,
        }),
{
    let t = s.retries;
    let more = (n - t - 1) as nat;
    let gone = Session { phase: Phase::Exiting, retries: 0, ..s };
    assert(failures(n) =~= failures(t) + (failures(1) + failures(more)));
    replay_in_two_parts(config, s, failures(t), failures(1) + failures(more));
    failures_within_budget(config, s, t);
    let spent = replay(config, s, failures(t)).0;
    replay_in_two_parts(config, spent, failures(1), failures(more));
    assert(failures(1).drop_first() =~= Seq::<Option<RecordView>>::empty());
    reveal_with_fuel(replay, 2);
    assert(replay(config, spent, failures(1)).0 == gone);
    assert(replay(config, spent, failures(1)).1 =~= seq![Notice::Aborting]);
    exiting_is_terminal(config, gone, failures(more));
    assert(repeated(Notice::Retrying, t) + (seq![Notice::Aborting] + Seq::<Notice>::empty())
        =~= repeated(Notice::Retrying, t) + seq![Notice::Aborting]);
}

/// With a search volume set, fetches that bring records which the filter
/// turns away end the run as soon as the volume is used up: nothing is
/// collected, nothing is printed on the way, and the run ends in success
/// with the notice of the volume. What is fetched after that is ignored.
pub proof fn volume_ends_the_run(config: RunConfig, s: Session, fetches: Seq<Option<RecordView>>)
    requires
        consistent(config, s),
        polling(s),
        config.max_volume != 0,
        fetches.len() >= config.max_volume - s.searched,
        forall|i: int|
            0 <= i < config.max_volume - s.searched ==> (#[trigger] fetches[i] matches Some(r)
                && !config.filter@.holds(r)),
    ensures
        replay(config, s, fetches).0 == (Session {
            phase: Phase::Exiting,
            retries: config.retries as nat,
            searched: config.max_volume as nat,
            emails: s.emails,
        }),
        replay(config, s, fetches).1 == Seq::<Notice>::empty(),
        farewell_of(config, replay(config, s, fetches).0) == (Farewell {
            notice: Some(Notice::ReachedMaxVolume),
            signal: ExitSignal::Success,
        }),
    decreases fetches.len(),
{
    let rest = fetches.drop_first();
    let (next, said) = step(config, on_resume(s), fetches[0]);
    steps_keep_consistency(config, s, fetches[0]);
    steps_keep_consistency(config, on_resume(s), fetches[0]);
    if next.phase == Phase::Exiting {
        exiting_is_terminal(config, next, rest);
    } else {
        assert forall|i: int| 0 <= i < config.max_volume - next.searched implies (
        #[trigger] rest[i] matches Some(r) && !config.filter@.holds(r)) by {
            assert(rest[i] == fetches[i + 1]);
        }
        volume_ends_the_run(config, next, rest);
    }
    assert(said + replay(config, next, rest).1 =~= Seq::<Notice>::empty());
}

/// With a wanted number of records set and search volume to spare, fetches
/// that bring records which pass the filter, each new, end the run as soon
/// as the number is reached: each of them is collected, nothing is printed
/// on the way, and the run ends in success with the notice of completion.
/// What is fetched after that is ignored.
pub proof fn target_ends_the_run(config: RunConfig, s: Session, fetches: Seq<Option<RecordView>>)
    requires
        consistent(config, s),
        polling(s),
        config.emails != 0,
        config.max_volume == 0 || config.max_volume - s.searched >= config.emails
            - s.emails.len(),
        fetches.len() >= config.emails - s.emails.len(),
        forall|i: int|
            0 <= i < config.emails - s.emails.len() ==> (#[trigger] fetches[i] matches Some(r)
                && config.filter@.holds(r) && !s.emails.contains(r)),
        forall|i: int, j: int|
            0 <= i < j < config.emails - s.emails.len() ==> fetches[i] != fetches[j],
    ensures
        replay(config, s, fetches).0.phase == Phase::Exiting,
        replay(config, s, fetches).0.searched == s.searched + (config.emails - s.emails.len()),
        replay(config, s, fetches).0.emails.len() == config.emails,
        s.emails.subset_of(replay(config, s, fetches).0.emails),
        forall|i: int|
            0 <= i < config.emails - s.emails.len() ==> replay(
                config,
                s,
                fetches,
            ).0.emails.contains(#[trigger] fetches[i]->0),
        replay(config, s, fetches).1 == Seq::<Notice>::empty(),
        farewell_of(config, replay(config, s, fetches).0) == (Farewell {
            notice: Some(Notice::Finished),
            signal: ExitSignal::Success,
        }),
    decreases fetches.len(),
{
    let wanted = config.emails - s.emails.len();
    let rest = fetches.drop_first();
    let (next, said) = step(config, on_resume(s), fetches[0]);
    steps_keep_consistency(config, s, fetches[0]);
    steps_keep_consistency(config, on_resume(s), fetches[0]);
    assert(fetches[0] matches Some(r) && next.emails == s.emails.insert(r));
    if next.phase == Phase::Exiting {
        exiting_is_terminal(config, next, rest);
        assert forall|i: int| 0 <= i < wanted implies next.emails.contains(
            #[trigger] fetches[i]->0,
        ) by {
            if i > 0 {
                assert(fetches[0] != fetches[i]);
            }
        }
    } else {
        assert forall|i: int| 0 <= i < wanted - 1 implies (#[trigger] rest[i] matches Some(r)
            && config.filter@.holds(r) && !next.emails.contains(r)) by {
            assert(rest[i] == fetches[i + 1]);
            assert(fetches[0] != fetches[i + 1]);
        }
        assert forall|i: int, j: int| 0 <= i < j < wanted - 1 implies rest[i] != rest[j] by {
            assert(rest[i] == fetches[i + 1]);
            assert(rest[j] == fetches[j + 1]);
        }
        target_ends_the_run(config, next, rest);
        let last = replay(config, next, rest).0;
        assert forall|i: int| 0 <= i < wanted implies last.emails.contains(
            #[trigger] fetches[i]->0,
        ) by {
            if i > 0 {
                assert(rest[i - 1] == fetches[i]);
            }
        }
    }
    assert(said + replay(config, next, rest).1 =~= Seq::<Notice>::empty());
}

proof fn occurrences_around_reconnection(retried: nat, failed: nat, notice: Notice)
    ensures
        occurrences(
            repeated(Notice::Retrying, retried) + seq![Notice::WillReconnect] + repeated(
                Notice::FailedToReconnect,
                failed,
            ) + seq![Notice::Reconnected],
            notice,
        ) == occurrences(repeated(Notice::Retrying, retried), notice) + occurrences(
            repeated(Notice::FailedToReconnect, failed),
            notice,
        ) + if notice == Notice::WillReconnect || notice == Notice::Reconnected {
            1nat
        } else {
            0nat
        },
        notice != Notice::Retrying ==> occurrences(repeated(Notice::Retrying, retried), notice)
            == 0,
        notice != Notice::FailedToReconnect ==> occurrences(
            repeated(Notice::FailedToReconnect, failed),
            notice,
        ) == 0,
{
    let before = repeated(Notice::Retrying, retried);
    let after = repeated(Notice::FailedToReconnect, failed);
    let lost = seq![Notice::WillReconnect];
    let back = seq![Notice::Reconnected];
    occurrences_add_up(before, lost, notice);
    occurrences_add_up(before + lost, after, notice);
    occurrences_add_up(before + lost + after, back, notice);
    occurrences_of_repeated(Notice::Retrying, retried, notice);
    occurrences_of_repeated(Notice::FailedToReconnect, failed, notice);
    reveal_with_fuel(occurrences, 2);
    assert(lost.drop_last() =~= Seq::<Notice>::empty());
    assert(back.drop_last() =~= Seq::<Notice>::empty());
}

proof fn streak_uses_budget_then_loses(config: RunConfig, s: Session, n: nat)
    requires
        polling(s),
        n > s.retries,
        config.reconnect_ms is Some,
    ensures
        replay(config, s, failures(n)).0 == (Session {
            phase: Phase::Disconnected,
            retries: 0,
            ..s
        }),
        replay(config, s, failures(n)).1 == repeated(Notice::Retrying, s.retries)
            + seq![Notice::WillReconnect] + repeated(
            Notice::FailedToReconnect,
            (n - s.retries - 1) as nat,
        ),
{
    let t = s.retries;
    let more = (n - t - 1) as nat;
    let lost = Session { phase: Phase::Disconnected, retries: 0, ..s };
    assert(failures(n) =~= failures(t) + (failures(1) + failures(more)));
    replay_in_two_parts(config, s, failures(t), failures(1) + failures(more));
    failures_within_budget(config, s, t);
    let spent = replay(config, s, failures(t)).0;
    replay_in_two_parts(config, spent, failures(1), failures(more));
    assert(failures(1).drop_first() =~= Seq::<Option<RecordView>>::empty());
    reveal_with_fuel(replay, 2);
    assert(replay(config, spent, failures(1)).0 == lost);
    assert(replay(config, spent, failures(1)).1 =~= seq![Notice::WillReconnect]);
    failures_while_disconnected(config, lost, more);
    assert(repeated(Notice::Retrying, t) + (seq![Notice::WillReconnect] + repeated(
        Notice::FailedToReconnect,
        more,
    )) =~= repeated(Notice::Retrying, t) + seq![Notice::WillReconnect] + repeated(
        Notice::FailedToReconnect,
        more,
    ));
}

} // verus!
