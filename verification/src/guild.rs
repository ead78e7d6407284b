//! The stored record of a guild: its moderation cases, history, channels and
//! roles, and the edits made to it.

use vstd::prelude::*;

verus! {

/// The channels the bot posts to: the moderation log and the welcome channel,
/// each by id.
#[derive(Debug)]
pub struct GuildDbChannels {
    pub logs: Option<String>,
    pub welcome: Option<String>,
}

/// The roles the bot knows of: the staff role, by id.
#[derive(Debug)]
pub struct GuildDbRoles {
    pub staff: Option<String>,
}

/// The kind of a moderation action.
#[derive(Clone, Copy, Debug, PartialEq, Eq, Structural)]
pub enum ActionTypes {
    Ban,
    Unban,
    Kick,
    Mute,
}

/// One moderation case: who acted on whom, when, why, and where it was logged.
#[derive(Debug)]
pub struct Case {
    pub id: u32,
    pub action: ActionTypes,
    pub guild_id: String,
    pub staff_id: String,
    pub target_id: String,
    pub date: i64,
    pub reason: String,
    pub reference: Option<u32>,
    pub expiration: Option<i64>,
    pub message: Option<String>,
}

/// How often a user was banned, kicked and muted.
#[derive(Debug)]
pub struct History {
    pub id: String,
    pub ban: u16,
    pub kick: u16,
    pub mute: u16,
}

/// The stored record of a guild.
#[derive(Debug)]
pub struct GuildDb {
    pub gid: String,
    pub cases: Vec<Case>,
    pub cases_number: u32,
    pub history: Vec<History>,
    pub channels: GuildDbChannels,
    pub roles: GuildDbRoles,
}

impl Default for GuildDbChannels {
    fn default() -> (r: Self)
        ensures
            r.logs is None,
            r.welcome is None,
    {
        GuildDbChannels { logs: None, welcome: None }
    }
}

impl Default for GuildDbRoles {
    fn default() -> (r: Self)
        ensures
            r.staff is None,
    {
        GuildDbRoles { staff: None }
    }
}

impl Default for GuildDb {
    fn default() -> (r: Self)
        ensures
            r.gid@ == Seq::<char>::empty(),
            r.cases@ == Seq::<Case>::empty(),
            r.cases_number == 0,
            r.history@ == Seq::<History>::empty(),
            r.channels.logs is None,
            r.channels.welcome is None,
            r.roles.staff is None,
    {
        GuildDb {
            gid: String::new(),
            cases: Vec::new(),
            cases_number: 0,
            history: Vec::new(),
            channels: GuildDbChannels::default(),
            roles: GuildDbRoles::default(),
        }
    }
}

/// Whether the two records agree on every field but the cases and the case
/// count.
pub open spec fn same_but_cases(a: GuildDb, b: GuildDb) -> bool {
    &&& a.gid == b.gid
    &&& a.history == b.history
    &&& a.channels == b.channels
    &&& a.roles == b.roles
}

/// Whether some case has id `id`.
pub open spec fn has_case_with_id(cases: Seq<Case>, id: u32) -> bool {
    exists|i: int| 0 <= i < cases.len() && (#[trigger] cases[i]).id == id
}

/// Whether `i` is the position of the first case with id `id`.
pub open spec fn is_first_case_with_id(cases: Seq<Case>, id: u32, i: int) -> bool {
    &&& 0 <= i < cases.len()
    &&& cases[i].id == id
    &&& forall|j: int| 0 <= j < i ==> (#[trigger] cases[j]).id != id
}

/// Which field of a case an update changes.
#[allow(non_camel_case_types)]
#[derive(Clone, Copy, Debug, PartialEq, Eq, Structural)]
pub enum CaseUpdateAction {
    reason,
    reference,
}

/// The new value for the field that an update changes.
#[derive(Debug)]
pub struct CaseUpdateValue {
    pub reason: Option<String>,
    pub reference: Option<u32>,
}

/// `case` with the field that `action` names set from `value`.
pub open spec fn updated_case(case: Case, action: CaseUpdateAction, value: CaseUpdateValue) -> Case {
    match action {
        CaseUpdateAction::reason => Case { reason: value.reason.unwrap(), ..case },
        CaseUpdateAction::reference => Case { reference: Some(value.reference.unwrap()), ..case },
    }
}

impl GuildDb {
    /// Sets the guild's id.
    pub fn guild_id(self, gid: String) -> (r: Self)
        ensures
            r == (GuildDb { gid: gid, ..self }),
    {
        let mut s = self;
        s.gid = gid;
        s
    }

    /// Records a new case and counts it.
    pub fn add_cases(self, case: Case) -> (r: Self)
        requires
            self.cases_number < u32::MAX,
        ensures
            r.cases@ == self.cases@.push(case),
            r.cases_number == self.cases_number + 1,
            same_but_cases(r, self),
    {
        let cases_number = self.cases_number + 1;
        let mut s = self.set_cases_count(cases_number);
        s.cases.push(case);
        s
    }

    /// Replaces the cases.
    pub fn set_cases(self, cases: Vec<Case>) -> (r: Self)
        ensures
            r == (GuildDb { cases: cases, ..self }),
    {
        let mut s = self;
        s.cases = cases;
        s
    }

    /// Removes the case at position `index`; the count of cases stays.
    pub fn delete_cases(self, index: usize) -> (r: Self)
        requires
            index < self.cases.len(),
        ensures
            r.cases@ == self.cases@.remove(index as int),
            r.cases_number == self.cases_number,
            same_but_cases(r, self),
    {
        let mut s = self;
        s.cases.remove(index);
        s
    }

    /// Sets the count of cases.
    pub fn set_cases_count(self, cases_number: u32) -> (r: Self)
        ensures
            r == (GuildDb { cases_number: cases_number, ..self }),
    {
        let mut s = self;
        s.cases_number = cases_number;
        s
    }

    /// Replaces the history.
    pub fn set_history(self, history: Vec<History>) -> (r: Self)
        ensures
            r == (GuildDb { history: history, ..self }),
    {
        let mut s = self;
        s.history = history;
        s
    }

    /// Replaces the channels.
    pub fn set_channels(self, channels: GuildDbChannels) -> (r: Self)
        ensures
            r == (GuildDb { channels: channels, ..self }),
    {
        let mut s = self;
        s.channels = channels;
        s
    }

    /// Replaces the roles.
    pub fn set_roles(self, roles: GuildDbRoles) -> (r: Self)
        ensures
            r == (GuildDb { roles: roles, ..self }),
    {
        let mut s = self;
        s.roles = roles;
        s
    }

    /// The position of the first case with id `id`, if any.
    pub fn case_position(&self, id: u32) -> (r: Option<usize>)
        ensures
            r matches Some(i) ==> is_first_case_with_id(self.cases@, id, i as int),
            r is None <==> !has_case_with_id(self.cases@, id),
    {
        let mut i: usize = 0;
        while i < self.cases.len()
            invariant
                i <= self.cases.len(),
                forall|j: int| 0 <= j < i ==> (#[trigger] self.cases@[j]).id != id,
            decreases self.cases.len() - i,
        {
            if self.cases[i].id == id {
                return Some(i);
            }
            i += 1;
        }
        None
    }

    /// Changes the reason or the reference of the first case with id `id`.
    pub fn apply_case_update(self, id: u32, action: CaseUpdateAction, value: CaseUpdateValue) -> (r: Self)
        requires
            has_case_with_id(self.cases@, id),
            action == CaseUpdateAction::reason ==> value.reason is Some,
            action == CaseUpdateAction::reference ==> value.reference is Some,
        ensures
            forall|i: int|
                is_first_case_with_id(self.cases@, id, i) ==> r.cases@ == self.cases@.update(
                    i,
                    updated_case(self.cases@[i], action, value),
                ),
            r.cases_number == self.cases_number,
            same_but_cases(r, self),
    {
        let index = match self.case_position(id) {
            Some(i) => i,
            None => 0,
        };
        let ghost old_cases = self.cases@;
        let ghost new_case = updated_case(old_cases[index as int], action, value);
        let mut s = self;
        let mut c = s.cases.remove(index);
        match action {
            CaseUpdateAction::reason => {
                c.reason = match value.reason {
                    Some(reason) => reason,
                    None => c.reason,
                };
            },
            CaseUpdateAction::reference => {
                c.reference = match value.reference {
                    Some(reference) => Some(reference),
                    None => c.reference,
                };
            },
        }
        assert(c == new_case);
        s.cases.insert(index, c);
        assert(s.cases@ =~= old_cases.update(index as int, new_case));
        assert forall|i: int| is_first_case_with_id(old_cases, id, i) implies i == index by {
            if i < index {
                assert(old_cases[i].id != id);
            }
            if i > index {
                assert(old_cases[index as int].id != id);
            }
        }
        s
    }
}

impl GuildDbChannels {
    /// Sets the moderation log channel.
    pub fn set_logs_channel(self, logs: Option<String>) -> (r: Self)
        ensures
            r == (GuildDbChannels { logs: logs, ..self }),
    {
        let mut s = self;
        s.logs = logs;
        s
    }

    /// Sets the welcome channel.
    pub fn set_welcome_channel(self, welcome: Option<String>) -> (r: Self)
        ensures
            r == (GuildDbChannels { welcome: welcome, ..self }),
    {
        let mut s = self;
        s.welcome = welcome;
        s
    }
}

impl GuildDbRoles {
    /// Sets the staff role.
    pub fn set_staff_role(self, staff: Option<String>) -> (r: Self)
        ensures
            r == (GuildDbRoles { staff: staff, ..self }),
    {
        let mut s = self;
        s.staff = staff;
        s
    }
}

/// A case added under an id that no case had yet is the one found under that
/// id afterwards.
pub proof fn law_added_case_is_found(cases: Seq<Case>, case: Case)
    requires
        !has_case_with_id(cases, case.id),
    ensures
        has_case_with_id(cases.push(case), case.id),
        is_first_case_with_id(cases.push(case), case.id, cases.len() as int),
{
    let new = cases.push(case);
    assert(new[cases.len() as int] == case);
    assert forall|j: int| 0 <= j < cases.len() implies (#[trigger] new[j]).id != case.id by {
        assert(new[j] == cases[j]);
    }
}

/// Updating a case keeps who and what it is about: its id, action, guild, staff
/// member, target and date.
pub proof fn law_update_keeps_identity(case: Case, action: CaseUpdateAction, value: CaseUpdateValue)
    ensures
        updated_case(case, action, value).id == case.id,
        updated_case(case, action, value).action == case.action,
        updated_case(case, action, value).guild_id == case.guild_id,
        updated_case(case, action, value).staff_id == case.staff_id,
        updated_case(case, action, value).target_id == case.target_id,
        updated_case(case, action, value).date == case.date,
{
}

/// Setting the reason of a case changes its reason to the given one and
/// nothing else: the reference, expiration and log message stay.
pub proof fn law_reason_update_changes_only_reason(case: Case, value: CaseUpdateValue)
    requires
        value.reason is Some,
    ensures
        updated_case(case, CaseUpdateAction::reason, value).reason == value.reason.unwrap(),
        updated_case(case, CaseUpdateAction::reason, value).reference == case.reference,
        updated_case(case, CaseUpdateAction::reason, value).expiration == case.expiration,
        updated_case(case, CaseUpdateAction::reason, value).message == case.message,
        updated_case(case, CaseUpdateAction::reason, value) == (Case { reason: value.reason.unwrap(), ..case }),
{
}

/// Setting the reference of a case makes it refer to the given case and
/// changes nothing else: the reason, expiration and log message stay.
pub proof fn law_reference_update_changes_only_reference(case: Case, value: CaseUpdateValue)
    requires
        value.reference is Some,
    ensures
        updated_case(case, CaseUpdateAction::reference, value).reference == Some(value.reference.unwrap()),
        updated_case(case, CaseUpdateAction::reference, value).reason == case.reason,
        updated_case(case, CaseUpdateAction::reference, value).expiration == case.expiration,
        updated_case(case, CaseUpdateAction::reference, value).message == case.message,
        updated_case(case, CaseUpdateAction::reference, value) == (Case {
            reference: Some(value.reference.unwrap()),
            ..case
        }),
{
}

/// After the reason of the first case with an id was set, looking that id up
/// finds the same case, now with the new reason; after its reference was set,
/// it refers to the new case.
pub proof fn law_update_read_back(
    cases: Seq<Case>,
    id: u32,
    i: int,
    action: CaseUpdateAction,
    value: CaseUpdateValue,
)
    requires
        is_first_case_with_id(cases, id, i),
    ensures
        is_first_case_with_id(cases.update(i, updated_case(cases[i], action, value)), id, i),
        action == CaseUpdateAction::reason ==> cases.update(i, updated_case(cases[i], action, value))[i].reason
            == value.reason.unwrap(),
        action == CaseUpdateAction::reference ==> cases.update(
            i,
            updated_case(cases[i], action, value),
        )[i].reference == Some(value.reference.unwrap()),
        forall|j: int|
            0 <= j < cases.len() && j != i ==> cases.update(i, updated_case(cases[i], action, value))[j]
                == cases[j],
{
    let new = cases.update(i, updated_case(cases[i], action, value));
    assert forall|j: int| 0 <= j < i implies (#[trigger] new[j]).id != id by {
        assert(new[j] == cases[j]);
    }
}

} // verus!
