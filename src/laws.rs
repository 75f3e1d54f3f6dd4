use crate::iscsi::{
    discovery_command, logout_command,
    session_iqns, sessions_command, target_iqn, test_block_command,
};
use crate::lifecycle::{
    unformatted, CreateOp, PublishOp, StageOp, StagePhase, UnstageOp, UnstagePhase,
};
use crate::mount::{lsblk_command, mkdir_command, mount_command, mount_succeeded, umount_command, umount_succeeded};
use crate::ops::{
    succeed, ActionView, EventView, MountPhase, WaitForDisk, WaitPhase, DISK_POLLS,
    DISK_POLL_INTERVAL_MS,
};
use crate::params::{lookup, zfs_parent_key, ZFSOptions};
use crate::text::{dashed, has_infix, has_suffix};
use vstd::prelude::*;

verus! {

/// The actions that a dataset creation takes when the shell reports `evs`.
pub open spec fn create_run(op: CreateOp, evs: Seq<EventView>) -> Seq<ActionView>
    decreases evs.len(),
{
    if evs.len() == 0 {
        Seq::empty()
    } else {
        let (p, a) = op.next(evs[0]);
        seq![a] + create_run(CreateOp { phase: p, ..op }, evs.drop_first())
    }
}

/// A volume's id is its parent dataset followed by its name, and the
/// parent dataset taken from a storage class's parameters ends in `/`:
/// a dataset creation only ever succeeds with that id.
pub proof fn volume_id_is_parent_plus_name(
    op: CreateOp,
    zfs: ZFSOptions,
    params: Seq<(Seq<char>, Seq<char>)>,
    name: Seq<char>,
    evs: Seq<EventView>,
)
    requires
        zfs.from_params_spec(params),
        op.dataset@ == zfs.parent_dataset@ + name,
    ensures
        has_suffix(zfs.parent_dataset@, "/"@),
        forall|k: int|
            0 <= k < create_run(op, evs).len() ==> (#[trigger] create_run(op, evs)[k] matches ActionView::Done(
                Ok(id),
            ) ==> id == zfs.parent_dataset@ + name),
{
    let v = lookup(params, zfs_parent_key())->0;
    if !has_suffix(v, "/"@) {
        let w = v + "/"@;
        reveal_strlit("/");
        assert(w.subrange(w.len() - 1, w.len() as int) =~= "/"@);
    }
    created_ids(op, zfs.parent_dataset@ + name, evs);
}

proof fn created_ids(op: CreateOp, id: Seq<char>, evs: Seq<EventView>)
    requires
        op.dataset@ == id,
    ensures
        forall|k: int|
            0 <= k < create_run(op, evs).len() ==> (#[trigger] create_run(op, evs)[k] matches ActionView::Done(
                Ok(v),
            ) ==> v == id),
    decreases evs.len(),
{
    if evs.len() > 0 {
        let (p, a) = op.next(evs[0]);
        let rest = CreateOp { phase: p, ..op };
        created_ids(rest, id, evs.drop_first());
        assert forall|k: int| 0 <= k < create_run(op, evs).len() implies (#[trigger] create_run(
            op,
            evs,
        )[k] matches ActionView::Done(Ok(v)) ==> v == id) by {
            if k > 0 {
                assert(create_run(op, evs)[k] == create_run(rest, evs.drop_first())[k - 1]);
            }
        }
    }
}

/// Publishing and staging one volume under one base IQN address the same
/// target, `<base_iqn>:<volume_id with each / made ->`.
pub proof fn publish_and_stage_share_target(p: PublishOp, s: StageOp)
    requires
        p.wf(),
        s.wf(),
        p.volume_id@ == s.volume_id@,
        p.base_iqn@ == s.base_iqn@,
    ensures
        p.iqn@ == s.iqn@,
        p.iqn@ == p.base_iqn@ + ":"@ + dashed(p.volume_id@),
        s.iqn@ == target_iqn(s.base_iqn@, s.volume_id@),
{
}

/// The actions that staging takes when the shell reports `evs`.
pub open spec fn stage_run(op: StageOp, evs: Seq<EventView>) -> Seq<ActionView>
    decreases evs.len(),
{
    if evs.len() == 0 {
        Seq::empty()
    } else {
        let (o, a) = op.next(evs[0]);
        seq![a] + stage_run(o, evs.drop_first())
    }
}

/// Staging a volume that is already staged changes nothing and succeeds:
/// when a session with the target exists, the disk is there, it holds a
/// filesystem and the staging path is already mounted, staging neither
/// logs in nor formats, and ends in success.
pub proof fn stage_again_is_no_op(
    op: StageOp,
    discovered: Seq<char>,
    sessions: Seq<char>,
    tested: Seq<char>,
    listed: Seq<char>,
    found: Seq<Option<Seq<char>>>,
    made: Seq<char>,
    mounted: Seq<char>,
    mount_code: u32,
)
    requires
        op.wf(),
        op.phase == StagePhase::Ready,
        op.wait.phase == WaitPhase::Ready,
        op.wait.tries == 0,
        op.mount.phase == MountPhase::Ready,
        session_iqns(sessions, 0).contains(op.iqn@),
        found.len() > 0,
        !unformatted(found.last()),
        mount_succeeded(mounted, mount_code),
    ensures
        stage_run(
            op,
            seq![
                EventView::Start,
                EventView::Finished { output: discovered, code: 0 },
                EventView::Finished { output: sessions, code: 0 },
                EventView::Slept,
                EventView::Finished { output: tested, code: 0 },
                EventView::Finished { output: listed, code: 0 },
                EventView::Devices(Ok(found)),
                EventView::Finished { output: made, code: 0 },
                EventView::Finished { output: mounted, code: mount_code },
            ],
        ) == seq![
            ActionView::Exec(discovery_command(op.portal@)),
            ActionView::Exec(sessions_command()),
            ActionView::Sleep(DISK_POLL_INTERVAL_MS),
            ActionView::Exec(test_block_command(op.disk())),
            ActionView::Exec(lsblk_command(op.disk())),
            ActionView::DecodeBlockDevices(listed),
            ActionView::Exec(mkdir_command(op.staging())),
            ActionView::Exec(mount_command(op.fs_type, op.disk(), op.staging())),
            succeed(),
        ],
{
    let evs = seq![
        EventView::Start,
        EventView::Finished { output: discovered, code: 0 },
        EventView::Finished { output: sessions, code: 0 },
        EventView::Slept,
        EventView::Finished { output: tested, code: 0 },
        EventView::Finished { output: listed, code: 0 },
        EventView::Devices(Ok(found)),
        EventView::Finished { output: made, code: 0 },
        EventView::Finished { output: mounted, code: mount_code },
    ];
    let (o1, a1) = op.next(evs[0]);
    let (o2, a2) = o1.next(evs[1]);
    let (o3, a3) = o2.next(evs[2]);
    let (o4, a4) = o3.next(evs[3]);
    let (o5, a5) = o4.next(evs[4]);
    let (o6, a6) = o5.next(evs[5]);
    let (o7, a7) = o6.next(evs[6]);
    let (o8, a8) = o7.next(evs[7]);
    let (o9, a9) = o8.next(evs[8]);
    assert(stage_run(o9, evs.subrange(9, 9)) =~= Seq::empty());
    assert(stage_run(o8, evs.subrange(8, 9)) =~= seq![a9]) by {
        assert(evs.subrange(8, 9).drop_first() =~= evs.subrange(9, 9));
    }
    assert(stage_run(o7, evs.subrange(7, 9)) =~= seq![a8, a9]) by {
        assert(evs.subrange(7, 9).drop_first() =~= evs.subrange(8, 9));
    }
    assert(stage_run(o6, evs.subrange(6, 9)) =~= seq![a7, a8, a9]) by {
        assert(evs.subrange(6, 9).drop_first() =~= evs.subrange(7, 9));
    }
    assert(stage_run(o5, evs.subrange(5, 9)) =~= seq![a6, a7, a8, a9]) by {
        assert(evs.subrange(5, 9).drop_first() =~= evs.subrange(6, 9));
    }
    assert(stage_run(o4, evs.subrange(4, 9)) =~= seq![a5, a6, a7, a8, a9]) by {
        assert(evs.subrange(4, 9).drop_first() =~= evs.subrange(5, 9));
    }
    assert(stage_run(o3, evs.subrange(3, 9)) =~= seq![a4, a5, a6, a7, a8, a9]) by {
        assert(evs.subrange(3, 9).drop_first() =~= evs.subrange(4, 9));
    }
    assert(stage_run(o2, evs.subrange(2, 9)) =~= seq![a3, a4, a5, a6, a7, a8, a9]) by {
        assert(evs.subrange(2, 9).drop_first() =~= evs.subrange(3, 9));
    }
    assert(stage_run(o1, evs.subrange(1, 9)) =~= seq![a2, a3, a4, a5, a6, a7, a8, a9]) by {
        assert(evs.subrange(1, 9).drop_first() =~= evs.subrange(2, 9));
    }
    assert(stage_run(op, evs) =~= seq![a1, a2, a3, a4, a5, a6, a7, a8, a9]) by {
        assert(evs.drop_first() =~= evs.subrange(1, 9));
    }
}

/// The actions that unstaging takes when the shell reports `evs`.
pub open spec fn unstage_run(op: UnstageOp, evs: Seq<EventView>) -> Seq<ActionView>
    decreases evs.len(),
{
    if evs.len() == 0 {
        Seq::empty()
    } else {
        let (p, a) = op.next(evs[0]);
        seq![a] + unstage_run(UnstageOp { phase: p, ..op }, evs.drop_first())
    }
}

/// Unstaging a volume that is already unstaged succeeds: when `umount`
/// answers that the path is not mounted, unstaging logs out and ends in
/// success whatever the logout answers.
pub proof fn unstage_again_is_no_op(
    op: UnstageOp,
    unmounted: Seq<char>,
    logged_out: Seq<char>,
    logout_code: u32,
)
    requires
        op.phase == UnstagePhase::Ready,
        has_infix(unmounted, "not mounted"@),
    ensures
        unstage_run(
            op,
            seq![
                EventView::Start,
                EventView::Finished { output: unmounted, code: 32 },
                EventView::Finished { output: logged_out, code: logout_code },
            ],
        ) == seq![
            ActionView::Exec(umount_command(op.staging@)),
            ActionView::Exec(logout_command(op.iqn@, op.portal@)),
            succeed(),
        ],
{
    let evs = seq![
        EventView::Start,
        EventView::Finished { output: unmounted, code: 32 },
        EventView::Finished { output: logged_out, code: logout_code },
    ];
    assert(umount_succeeded(unmounted, 32));
    let (ph1, a1) = op.next(evs[0]);
    let o1 = UnstageOp { phase: ph1, ..op };
    let (ph2, a2) = o1.next(evs[1]);
    let o2 = UnstageOp { phase: ph2, ..op };
    let (ph3, a3) = o2.next(evs[2]);
    let o3 = UnstageOp { phase: ph3, ..op };
    assert(unstage_run(o3, evs.subrange(3, 3)) =~= Seq::empty());
    assert(unstage_run(o2, evs.subrange(2, 3)) =~= seq![a3]) by {
        assert(evs.subrange(2, 3).drop_first() =~= evs.subrange(3, 3));
    }
    assert(unstage_run(o1, evs.subrange(1, 3)) =~= seq![a2, a3]) by {
        assert(evs.subrange(1, 3).drop_first() =~= evs.subrange(2, 3));
    }
    assert(unstage_run(op, evs) =~= seq![a1, a2, a3]) by {
        assert(evs.drop_first() =~= evs.subrange(1, 3));
    }
}

/// The actions that the wait for a disk takes when the shell reports `evs`.
pub open spec fn wait_run(w: WaitForDisk, evs: Seq<EventView>) -> Seq<ActionView>
    decreases evs.len(),
{
    if evs.len() == 0 {
        Seq::empty()
    } else {
        let (p, t, a) = w.next(evs[0]);
        seq![a] + wait_run(WaitForDisk { phase: p, tries: t, ..w }, evs.drop_first())
    }
}

/// The number of commands among `acts`.
pub open spec fn polls(acts: Seq<ActionView>) -> nat
    decreases acts.len(),
{
    if acts.len() == 0 {
        0
    } else {
        (if acts[0] is Exec {
            1nat
        } else {
            0nat
        }) + polls(acts.drop_first())
    }
}

/// The polls that a wait can still make.
pub open spec fn polls_left(w: WaitForDisk) -> int {
    match w.phase {
        WaitPhase::Over => 0,
        WaitPhase::Polling => DISK_POLLS - w.tries - 1,
        _ => DISK_POLLS - w.tries,
    }
}

proof fn polls_bounded(w: WaitForDisk, evs: Seq<EventView>)
    requires
        w.wf(),
        w.phase == WaitPhase::Polling ==> w.tries < DISK_POLLS,
    ensures
        polls(wait_run(w, evs)) <= polls_left(w),
        polls_left(w) >= 0,
    decreases evs.len(),
{
    if evs.len() > 0 {
        let (p, t, a) = w.next(evs[0]);
        let rest = WaitForDisk { phase: p, tries: t, ..w };
        polls_bounded(rest, evs.drop_first());
        assert((seq![a] + wait_run(rest, evs.drop_first())).drop_first() =~= wait_run(
            rest,
            evs.drop_first(),
        ));
    }
}

proof fn polls_after_pauses(w: WaitForDisk, evs: Seq<EventView>)
    ensures
        wait_run(w, evs).len() == evs.len(),
        wait_run(w, evs).len() > 0 && wait_run(w, evs)[0] is Exec ==> w.phase
            == WaitPhase::Sleeping,
        forall|k: int|
            0 < k < wait_run(w, evs).len() && (#[trigger] wait_run(w, evs)[k]) is Exec ==> wait_run(
                w,
                evs,
            )[k - 1] == ActionView::Sleep(DISK_POLL_INTERVAL_MS),
    decreases evs.len(),
{
    if evs.len() > 0 {
        let (p, t, a) = w.next(evs[0]);
        let rest = WaitForDisk { phase: p, tries: t, ..w };
        polls_after_pauses(rest, evs.drop_first());
        let acts = wait_run(w, evs);
        assert forall|k: int| 0 < k < acts.len() && (#[trigger] acts[k]) is Exec implies acts[k - 1]
            == ActionView::Sleep(DISK_POLL_INTERVAL_MS) by {
            assert(acts[k] == wait_run(rest, evs.drop_first())[k - 1]);
            if k > 1 {
                assert(acts[k - 1] == wait_run(rest, evs.drop_first())[k - 2]);
            }
        }
    }
}

/// Waiting for a disk makes at most thirty polls, and each poll comes right
/// after a pause of 100 ms.
pub proof fn disk_wait_is_bounded_and_paced(path: String, evs: Seq<EventView>)
    ensures
        ({
            let acts = wait_run(WaitForDisk { path, tries: 0, phase: WaitPhase::Ready }, evs);
            &&& polls(acts) <= DISK_POLLS
            &&& forall|k: int|
                0 <= k < acts.len() && (#[trigger] acts[k]) is Exec ==> k > 0 && acts[k - 1]
                    == ActionView::Sleep(DISK_POLL_INTERVAL_MS)
        }),
{
    let w = WaitForDisk { path, tries: 0, phase: WaitPhase::Ready };
    polls_bounded(w, evs);
    polls_after_pauses(w, evs);
}

} // verus!
