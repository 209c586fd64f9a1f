//! The registry of chat owners. Entry 0 is the admin.

use crate::account::{Account, AccountView};
use vstd::prelude::*;

verus! {

/// The registry after an admin claim by `account`: the claim takes effect
/// only on an empty registry.
pub open spec fn register_admin_spec(reg: Seq<AccountView>, account: AccountView) -> Seq<
    AccountView,
> {
    if reg.len() == 0 {
        seq![account]
    } else {
        reg
    }
}

/// The registry after adding `account` as a member: appended at the end
/// unless it is already there.
pub open spec fn add_member_spec(reg: Seq<AccountView>, account: AccountView) -> Seq<AccountView> {
    if reg.contains(account) {
        reg
    } else {
        reg.push(account)
    }
}

/// The admin of a registry: its first entry, if it has one.
pub open spec fn admin_spec(reg: Seq<AccountView>) -> Option<AccountView> {
    if reg.len() > 0 {
        Some(reg[0])
    } else {
        None
    }
}

/// The registry after the adds `members`, applied from left to right.
pub open spec fn add_members_spec(reg: Seq<AccountView>, members: Seq<AccountView>) -> Seq<
    AccountView,
>
    decreases members.len(),
{
    if members.len() == 0 {
        reg
    } else {
        add_member_spec(add_members_spec(reg, members.drop_last()), members.last())
    }
}

/// `account` occurs at exactly one position of `reg`.
pub open spec fn registered_once(reg: Seq<AccountView>, account: AccountView) -> bool {
    exists|i: int|
        0 <= i < reg.len() && #[trigger] reg[i] == account && forall|j: int|
            0 <= j < reg.len() && #[trigger] reg[j] == account ==> j == i
}

/// Adding a member keeps the registry free of duplicates, keeps everyone
/// who was registered at their position, and leaves the member registered;
/// adding the same member again changes nothing.
pub proof fn lemma_add_member_once(reg: Seq<AccountView>, account: AccountView)
    requires
        reg.no_duplicates(),
    ensures
        add_member_spec(reg, account).no_duplicates(),
        registered_once(add_member_spec(reg, account), account),
        add_member_spec(add_member_spec(reg, account), account) == add_member_spec(reg, account),
        reg.is_prefix_of(add_member_spec(reg, account)),
{
    let after = add_member_spec(reg, account);
    if reg.contains(account) {
        let i = choose|i: int| 0 <= i < reg.len() && reg[i] == account;
        assert(after[i] == account);
    } else {
        assert(after[reg.len() as int] == account);
        assert(after.contains(account));
    }
}

/// Membership is idempotent: however often `account` is added, and
/// whatever other adds come before, between and after, a registry that
/// held nobody twice ends up holding `account` exactly once, and still
/// holds nobody twice.
pub proof fn lemma_membership_idempotent(
    reg: Seq<AccountView>,
    members: Seq<AccountView>,
    account: AccountView,
)
    requires
        reg.no_duplicates(),
        members.contains(account),
    ensures
        add_members_spec(reg, members).no_duplicates(),
        registered_once(add_members_spec(reg, members), account),
{
    lemma_add_members(reg, members);
    let after = add_members_spec(reg, members);
    assert(after.contains(account));
    let i = choose|i: int| 0 <= i < after.len() && after[i] == account;
    assert(after[i] == account);
}

/// A run of adds keeps the registry free of duplicates, keeps everyone who
/// was registered at their position, and registers everyone it names.
pub proof fn lemma_add_members(reg: Seq<AccountView>, members: Seq<AccountView>)
    requires
        reg.no_duplicates(),
    ensures
        add_members_spec(reg, members).no_duplicates(),
        reg.is_prefix_of(add_members_spec(reg, members)),
        forall|a: AccountView|
            reg.contains(a) || members.contains(a) ==> #[trigger] add_members_spec(
                reg,
                members,
            ).contains(a),
    decreases members.len(),
{
    if members.len() > 0 {
        let before = add_members_spec(reg, members.drop_last());
        let after = add_members_spec(reg, members);
        lemma_add_members(reg, members.drop_last());
        lemma_add_member_once(before, members.last());
        assert forall|a: AccountView| reg.contains(a) || members.contains(a) implies after.contains(
            a,
        ) by {
            if a == members.last() {
                let i = choose|i: int| 0 <= i < after.len() && after[i] == a;
            } else {
                if members.contains(a) {
                    let k = choose|k: int| 0 <= k < members.len() && members[k] == a;
                    assert(members.drop_last()[k] == a);
                }
                assert(before.contains(a));
                let i = choose|i: int| 0 <= i < before.len() && before[i] == a;
                assert(after[i] == a);
            }
        }
    }
}

/// The accounts that own a chat, in the order in which they joined.
pub struct Registry {
    entries: Vec<Account>,
}

impl View for Registry {
    type V = Seq<AccountView>;

    closed spec fn view(&self) -> Seq<AccountView> {
        Seq::new(self.entries@.len(), |i: int| self.entries@[i]@)
    }
}

impl Registry {
    /// No account is stored twice.
    pub open spec fn wf(&self) -> bool {
        self@.no_duplicates()
    }

    /// An empty registry.
    pub fn new() -> (res: Registry)
        ensures
            res@ == Seq::<AccountView>::empty(),
            res.wf(),
    {
        let res = Registry { entries: Vec::new() };
        assert(res@ =~= Seq::<AccountView>::empty());
        res
    }

    /// The number of registered accounts.
    pub fn count(&self) -> (res: usize)
        ensures
            res == self@.len(),
    {
        self.entries.len()
    }

    /// The account at position `index`, if there is one.
    pub fn get(&self, index: usize) -> (res: Option<Account>)
        ensures
            match res {
                Some(a) => index < self@.len() && a@ == self@[index as int],
                None => index >= self@.len(),
            },
    {
        if index < self.entries.len() {
            Some(self.entries[index].clone())
        } else {
            None
        }
    }

    /// The admin: entry 0, or `None` while nobody is registered.
    pub fn admin(&self) -> (res: Option<Account>)
        ensures
            match res {
                Some(a) => admin_spec(self@) == Some(a@),
                None => admin_spec(self@).is_none(),
            },
    {
        self.get(0)
    }

    /// Whether `account` is registered.
    pub fn contains(&self, account: &Account) -> (res: bool)
        ensures
            res == self@.contains(account@),
    {
        let mut i: usize = 0;
        while i < self.entries.len()
            invariant
                i <= self.entries@.len(),
                forall|j: int| 0 <= j < i ==> self@[j] != account@,
            decreases self.entries@.len() - i,
        {
            if account.same_identity(&self.entries[i]) {
                assert(self@[i as int] == account@);
                return true;
            }
            i += 1;
        }
        false
    }

    /// Claims the admin role for `account`. Only the first claim on an
    /// empty registry succeeds; later ones change nothing.
    pub fn register_admin(&mut self, account: Account)
        requires
            old(self).wf(),
        ensures
            final(self).wf(),
            final(self)@ == register_admin_spec(old(self)@, account@),
    {
        if self.entries.len() == 0 {
            self.entries.push(account);
            assert(self@ =~= seq![account@]);
        }
    }

    /// Adds `account` at the end unless it is already registered.
    pub fn add_member(&mut self, account: Account)
        requires
            old(self).wf(),
        ensures
            final(self).wf(),
            final(self)@ == add_member_spec(old(self)@, account@),
    {
        if !self.contains(&account) {
            self.entries.push(account);
            assert(self@ =~= old(self)@.push(account@));
        }
    }
}

} // verus!
