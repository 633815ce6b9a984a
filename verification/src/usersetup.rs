//! User accounts of the installed system: creating the users, setting
//! their passwords, opening sudo to the admin groups and enabling the
//! login manager.
use vstd::prelude::*;
use crate::commands::{chroot, chroot_cmd, emit};
use crate::state::AppState;
use crate::text::{all_ws, owned, str_eq, trims_to_empty};
use crate::types::UserAccount;

verus! {

/// The commands that set up the user accounts, in order.
#[derive(Clone)]
pub struct UserSetupPlan {
    pub commands: Vec<String>,
}

impl UserSetupPlan {
    /// A plan made of the given commands.
    pub fn new(commands: Vec<String>) -> (r: Self)
        ensures
            r.commands == commands,
    {
        UserSetupPlan { commands }
    }
}

/// Builds user-setup plans.
pub struct UserSetupService;

/// The `useradd` options of a user: a home, bash, and `wheel` for an
/// administrator.
pub open spec fn useradd_args(u: UserAccount) -> Seq<char> {
    if u.is_sudo { "-m -s /bin/bash -G wheel"@ } else { "-m -s /bin/bash"@ }
}

/// The commands for one user: create the account unless it exists, then
/// set its password when one was given (hidden in a dry run). A user
/// whose name is blank is skipped.
pub open spec fn user_commands(u: UserAccount, dry_run: bool) -> Seq<Seq<char>> {
    let name = u.username@;
    if all_ws(name) {
        Seq::empty()
    } else {
        seq![chroot("id -u "@ + name + " >/dev/null 2>&1 || useradd "@ + useradd_args(u) + " "@ + name)]
            + (if u.password@.len() == 0 {
                Seq::empty()
            } else if dry_run {
                seq![chroot("echo \""@ + name + ":<REDACTED>\" | chpasswd"@)]
            } else {
                seq![chroot("echo '"@ + name + ":"@ + u.password@ + "' | chpasswd"@)]
            })
    }
}

/// The commands for all users, in order.
pub open spec fn users_commands(us: Seq<UserAccount>, dry_run: bool) -> Seq<Seq<char>>
    decreases us.len(),
{
    if us.len() == 0 {
        Seq::empty()
    } else {
        users_commands(us.drop_last(), dry_run) + user_commands(us.last(), dry_run)
    }
}

/// Enabling the chosen login manager, unless it is empty or `none`.
pub open spec fn login_manager_commands(s: AppState) -> Seq<Seq<char>> {
    match s.experience.selected_login_manager {
        Some(lm) => if lm@.len() > 0 && lm@ != "none"@ {
            seq!["systemctl --root=/mnt enable "@ + lm@]
        } else {
            Seq::empty()
        },
        None => Seq::empty(),
    }
}

/// All user-setup commands: the users, the two sudoers edits that let
/// the `wheel` and `sudo` groups use sudo, and the login manager.
pub open spec fn user_setup_commands(s: AppState) -> Seq<Seq<char>> {
    users_commands(s.accounts.users@, s.dry_run) + seq![
        chroot("sed -i 's/^#\\s*%wheel ALL=(ALL:ALL) ALL/%wheel ALL=(ALL:ALL) ALL/' /etc/sudoers"@),
        chroot("sed -i 's/^#\\s*%sudo ALL=(ALL:ALL) ALL/%sudo ALL=(ALL:ALL) ALL/' /etc/sudoers"@),
    ] + login_manager_commands(s)
}

fn emit_user(u: &UserAccount, dry_run: bool, out: &mut Vec<String>)
    ensures
        final(out).deep_view() == old(out).deep_view() + user_commands(*u, dry_run),
{
    let ghost start = out.deep_view();
    let name = u.username.as_str();
    if !trims_to_empty(name) {
        let mut c = owned("id -u ");
        c.append(name);
        c.append(" >/dev/null 2>&1 || useradd ");
        if u.is_sudo {
            c.append("-m -s /bin/bash -G wheel");
        } else {
            c.append("-m -s /bin/bash");
        }
        c.append(" ");
        c.append(name);
        emit(out, chroot_cmd(c.as_str()));
        if u.password.as_str().unicode_len() != 0 {
            if dry_run {
                let mut c = owned("echo \"");
                c.append(name);
                c.append(":<REDACTED>\" | chpasswd");
                emit(out, chroot_cmd(c.as_str()));
            } else {
                let mut c = owned("echo '");
                c.append(name);
                c.append(":");
                c.append(u.password.as_str());
                c.append("' | chpasswd");
                emit(out, chroot_cmd(c.as_str()));
            }
        }
    }
    assert(out.deep_view() =~= start + user_commands(*u, dry_run));
}

impl UserSetupService {
    /// The commands that set up the user accounts (see
    /// `user_setup_commands`).
    pub fn build_plan(state: &AppState) -> (plan: UserSetupPlan)
        ensures
            plan.commands.deep_view() == user_setup_commands(*state),
    {
        let mut cmds: Vec<String> = Vec::new();
        let users = &state.accounts.users;
        let mut i: usize = 0;
        assert(cmds.deep_view() =~= users_commands(users@.take(0), state.dry_run));
        while i < users.len()
            invariant
                i <= users@.len(),
                users == &state.accounts.users,
                cmds.deep_view() == users_commands(users@.take(i as int), state.dry_run),
            decreases users@.len() - i,
        {
            assert(users@.take(i + 1).drop_last() =~= users@.take(i as int));
            emit_user(&users[i], state.dry_run, &mut cmds);
            i = i + 1;
        }
        assert(users@.take(users@.len() as int) =~= users@);
        emit(&mut cmds, chroot_cmd("sed -i 's/^#\\s*%wheel ALL=(ALL:ALL) ALL/%wheel ALL=(ALL:ALL) ALL/' /etc/sudoers"));
        emit(&mut cmds, chroot_cmd("sed -i 's/^#\\s*%sudo ALL=(ALL:ALL) ALL/%sudo ALL=(ALL:ALL) ALL/' /etc/sudoers"));
        match &state.experience.selected_login_manager {
            Some(lm) => {
                if lm.as_str().unicode_len() != 0 && !str_eq(lm.as_str(), "none") {
                    let mut c = owned("systemctl --root=/mnt enable ");
                    c.append(lm.as_str());
                    emit(&mut cmds, c);
                }
            },
            None => {},
        }
        assert(cmds.deep_view() =~= user_setup_commands(*state));
        UserSetupPlan::new(cmds)
    }
}

/// Two user lists that differ only in the passwords themselves (the same
/// names, the same administrators, and a password for the same users).
pub open spec fn same_but_passwords(a: Seq<UserAccount>, b: Seq<UserAccount>) -> bool {
    &&& a.len() == b.len()
    &&& forall|i: int| 0 <= i < a.len() ==> {
        &&& #[trigger] a[i].username@ == b[i].username@
        &&& a[i].is_sudo == b[i].is_sudo
        &&& (a[i].password@.len() == 0) == (b[i].password@.len() == 0)
    }
}

/// In a dry run the user commands do not depend on the passwords
/// themselves, only on which users have one.
pub proof fn lemma_dry_run_hides_user_passwords(a: Seq<UserAccount>, b: Seq<UserAccount>)
    requires
        same_but_passwords(a, b),
    ensures
        users_commands(a, true) == users_commands(b, true),
    decreases a.len(),
{
    if a.len() > 0 {
        assert(same_but_passwords(a.drop_last(), b.drop_last())) by {
            assert forall|i: int| 0 <= i < a.drop_last().len() implies {
                &&& #[trigger] a.drop_last()[i].username@ == b.drop_last()[i].username@
                &&& a.drop_last()[i].is_sudo == b.drop_last()[i].is_sudo
                &&& (a.drop_last()[i].password@.len() == 0) == (b.drop_last()[i].password@.len() == 0)
            } by {
                assert(a.drop_last()[i] == a[i]);
                assert(b.drop_last()[i] == b[i]);
            }
        }
        lemma_dry_run_hides_user_passwords(a.drop_last(), b.drop_last());
        let last = a.len() - 1;
        assert(a[last].username@ == b[last].username@);
        assert(user_commands(a.last(), true) == user_commands(b.last(), true));
    }
}


/// Each user with a name is created (with a home and bash, and in the
/// `wheel` group exactly when the user is an administrator), then gets
/// the password given, which a dry run shows as `<REDACTED>`; a user with
/// no password gets no password command, and a nameless user nothing.
pub proof fn lemma_user_created_as_chosen(u: UserAccount, dry_run: bool)
    ensures
        all_ws(u.username@) ==> user_commands(u, dry_run).len() == 0,
        !all_ws(u.username@) ==> user_commands(u, dry_run)[0] == chroot("id -u "@ + u.username@
            + " >/dev/null 2>&1 || useradd "@ + (if u.is_sudo { "-m -s /bin/bash -G wheel"@ } else { "-m -s /bin/bash"@ })
            + " "@ + u.username@),
        !all_ws(u.username@) && u.password@.len() == 0 ==> user_commands(u, dry_run).len() == 1,
        !all_ws(u.username@) && u.password@.len() > 0 && !dry_run ==> user_commands(u, dry_run).len() == 2
            && user_commands(u, dry_run)[1] == chroot("echo '"@ + u.username@ + ":"@ + u.password@ + "' | chpasswd"@),
        !all_ws(u.username@) && u.password@.len() > 0 && dry_run ==> user_commands(u, dry_run).len() == 2
            && user_commands(u, dry_run)[1] == chroot("echo \""@ + u.username@ + ":<REDACTED>\" | chpasswd"@),
{
}

/// The chosen login manager is enabled last, unless none (or `none`) is
/// chosen, and sudo is opened to the `wheel` group after the users.
pub proof fn lemma_login_manager_enabled_last(s: AppState)
    ensures
        (s.experience.selected_login_manager matches Some(lm) && lm@.len() > 0 && lm@ != "none"@)
            ==> user_setup_commands(s).last() == "systemctl --root=/mnt enable "@ + s.experience.selected_login_manager->0@,
        !(s.experience.selected_login_manager matches Some(lm) && lm@.len() > 0 && lm@ != "none"@)
            ==> user_setup_commands(s).last() == chroot("sed -i 's/^#\\s*%sudo ALL=(ALL:ALL) ALL/%sudo ALL=(ALL:ALL) ALL/' /etc/sudoers"@),
        user_setup_commands(s)[users_commands(s.accounts.users@, s.dry_run).len() as int]
            == chroot("sed -i 's/^#\\s*%wheel ALL=(ALL:ALL) ALL/%wheel ALL=(ALL:ALL) ALL/' /etc/sudoers"@),
{
}

} // verus!
