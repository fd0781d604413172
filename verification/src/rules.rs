//! Exception records and the persisted list they are appended to.
//!
//! The list lives under one configuration key that other processes read.
//! This module never edits or removes a record: it takes what a read of
//! the key gave, appends one record, and hands back the list to write.

use vstd::prelude::*;

verus! {

/// One persisted exception record.
#[derive(Clone, Debug, PartialEq, Eq)]
pub struct ExceptionRule {
    /// An exact application id, or the match-any pattern.
    pub app_id: String,
    /// An exact title, or empty where the title is not matched.
    pub title: String,
    /// Whether the rule is in force.
    pub enabled: bool,
}

/// The mathematical value of an [`ExceptionRule`].
pub struct RuleView {
    pub app_id: Seq<char>,
    pub title: Seq<char>,
    pub enabled: bool,
}

impl View for ExceptionRule {
    type V = RuleView;

    open spec fn view(&self) -> RuleView {
        RuleView { app_id: self.app_id@, title: self.title@, enabled: self.enabled }
    }
}

/// The values of a list of records, in the list's order.
pub open spec fn rule_views(rules: Seq<ExceptionRule>) -> Seq<RuleView> {
    Seq::new(rules.len(), |i: int| rules[i]@)
}

/// The pattern that stands in `app_id` for "any application": `.*`.
pub open spec fn match_any() -> Seq<char> {
    seq!['.', '*']
}

/// The record that an append creates from the two fields it receives.
pub open spec fn new_rule(app_id: Seq<char>, title: Seq<char>) -> RuleView {
    RuleView { app_id, title, enabled: true }
}

/// The record of the "by title" mode.
pub open spec fn title_rule(title: Seq<char>) -> RuleView {
    new_rule(match_any(), title)
}

/// The record of the "by application id" mode.
pub open spec fn app_id_rule(app_id: Seq<char>) -> RuleView {
    new_rule(app_id, Seq::<char>::empty())
}

impl RuleView {
    /// The record matches by title alone.
    pub open spec fn by_title(self) -> bool {
        self.app_id == match_any() && self.title.len() > 0
    }

    /// The record matches by application id alone.
    pub open spec fn by_app_id(self) -> bool {
        self.app_id != match_any() && self.app_id.len() > 0 && self.title.len() == 0
    }

    /// Exactly one of the two fields carries a discriminating value.
    pub open spec fn discriminating(self) -> bool {
        self.by_title() || self.by_app_id()
    }
}

/// What a read of the configuration key gave.
#[derive(Clone, Debug, PartialEq, Eq)]
pub enum StoredRules {
    /// The key is not there yet: expected on first use.
    Absent,
    /// The key is there, but its value is not a list of records.
    Malformed,
    /// The key holds this list.
    Present(Vec<ExceptionRule>),
}

/// The mathematical value of a [`StoredRules`].
pub enum StoredView {
    Absent,
    Malformed,
    Present(Seq<RuleView>),
}

impl View for StoredRules {
    type V = StoredView;

    open spec fn view(&self) -> StoredView {
        match *self {
            StoredRules::Absent => StoredView::Absent,
            StoredRules::Malformed => StoredView::Malformed,
            StoredRules::Present(rules) => StoredView::Present(rule_views(rules@)),
        }
    }
}

/// The list that an append starts from: what the key holds, or nothing
/// where the key is absent or malformed.
pub open spec fn existing(stored: StoredView) -> Seq<RuleView> {
    match stored {
        StoredView::Present(rules) => rules,
        _ => Seq::<RuleView>::empty(),
    }
}

/// The list that an append writes back.
pub open spec fn appended(stored: StoredView, app_id: Seq<char>, title: Seq<char>) -> Seq<
    RuleView,
> {
    existing(stored).push(new_rule(app_id, title))
}

/// What the library takes a read to find under the key once `rules` has
/// been written there: the same list. This is an assumption about the
/// configuration store, which keeps the value outside the library;
/// nothing here proves it of the store.
pub open spec fn written(rules: Seq<RuleView>) -> StoredView {
    StoredView::Present(rules)
}

/// What is known of a read of the key that gave no list.
#[derive(Clone, Copy, Debug, PartialEq, Eq, Structural)]
pub struct ReadFailure {
    /// The configuration system counts the failure as an error; it does
    /// not where nothing has been stored yet.
    pub is_error: bool,
    /// The key's file was looked for and is not there.
    pub key_not_found: bool,
}

impl ReadFailure {
    /// The failure is the not-found condition: the key is absent.
    pub open spec fn absent(self) -> bool {
        !self.is_error || self.key_not_found
    }
}

/// What a read stands for: the list it gave, an absent key where it
/// failed with the not-found condition, a malformed value where it
/// failed in any other way.
pub open spec fn classified(read: Result<Vec<ExceptionRule>, ReadFailure>) -> StoredView {
    match read {
        Ok(rules) => StoredView::Present(rule_views(rules@)),
        Err(failure) => if failure.absent() {
            StoredView::Absent
        } else {
            StoredView::Malformed
        },
    }
}

/// The name of the configuration key that holds the list.
pub open spec fn rules_key() -> Seq<char> {
    "tiling_exception_custom"@
}

/// The name of the configuration key that holds the list, as a string.
pub fn config_key() -> (key: &'static str)
    ensures
        key@ == rules_key(),
{
    "tiling_exception_custom"
}

/// The match-any pattern as a string.
pub fn match_any_pattern() -> (pattern: String)
    ensures
        pattern@ == match_any(),
{
    proof {
        reveal_strlit(".*");
    }
    let pattern = String::from_str(".*");
    assert(pattern@ =~= match_any());
    pattern
}

/// Whether the two fields make a record that matches by exactly one of
/// them: a title beside the match-any pattern, or an application id of
/// its own beside an empty title.
pub fn discriminates(app_id: &String, title: &String) -> (ok: bool)
    ensures
        ok == new_rule(app_id@, title@).discriminating(),
{
    let any = match_any_pattern();
    let has_title = !title.as_str().is_empty();
    let has_app_id = !app_id.as_str().is_empty();
    if *app_id == any {
        has_title
    } else {
        has_app_id && !has_title
    }
}

impl ExceptionRule {
    /// An enabled record of the two fields, where they match by exactly
    /// one of them; no record where both are empty, both are set, or the
    /// match-any pattern stands beside an empty title.
    pub fn new(app_id: String, title: String) -> (rule: Option<ExceptionRule>)
        ensures
            rule is Some <==> new_rule(app_id@, title@).discriminating(),
            rule matches Some(made) ==> made@ == new_rule(app_id@, title@),
    {
        if discriminates(&app_id, &title) {
            Some(ExceptionRule { app_id, title, enabled: true })
        } else {
            None
        }
    }

    /// The record that exempts every window with this title; none for an
    /// empty title.
    pub fn with_title(title: String) -> (rule: Option<ExceptionRule>)
        ensures
            rule is Some <==> title@.len() > 0,
            rule matches Some(made) ==> made@ == title_rule(title@) && made@.by_title(),
    {
        ExceptionRule::new(match_any_pattern(), title)
    }

    /// The record that exempts every window of this application; none
    /// for an empty application id, nor for one that reads as the
    /// match-any pattern.
    pub fn with_app_id(app_id: String) -> (rule: Option<ExceptionRule>)
        ensures
            rule is Some <==> (app_id@.len() > 0 && app_id@ != match_any()),
            rule matches Some(made) ==> made@ == app_id_rule(app_id@) && made@.by_app_id(),
    {
        let title = String::new();
        ExceptionRule::new(app_id, title)
    }
}

impl StoredRules {
    /// Classifies a read of the key: its list, or why there is none.
    pub fn from_read(read: Result<Vec<ExceptionRule>, ReadFailure>) -> (stored: StoredRules)
        ensures
            stored@ == classified(read),
    {
        match read {
            Ok(rules) => StoredRules::Present(rules),
            Err(failure) => {
                if !failure.is_error || failure.key_not_found {
                    StoredRules::Absent
                } else {
                    StoredRules::Malformed
                }
            },
        }
    }

    /// Whether a write after this read overwrites content that could not
    /// be read: true of a malformed value alone.
    pub fn discards_prior(&self) -> (lossy: bool)
        ensures
            lossy == (self@ == StoredView::Malformed),
    {
        match self {
            StoredRules::Malformed => true,
            _ => false,
        }
    }

    /// The list that an append starts from.
    pub fn into_existing(self) -> (rules: Vec<ExceptionRule>)
        ensures
            rule_views(rules@) == existing(self@),
            rules@.len() == existing(self@).len(),
            forall|i: int| 0 <= i < rules@.len() ==> (#[trigger] rules@[i])@ == existing(self@)[i],
            self matches StoredRules::Present(list) ==> rules@ == list@,
    {
        match self {
            StoredRules::Present(rules) => rules,
            _ => {
                let rules: Vec<ExceptionRule> = Vec::new();
                assert(rule_views(rules@) =~= Seq::<RuleView>::empty());
                rules
            },
        }
    }

    /// What the library takes a later read to find once `rules` has been
    /// written under the key: the same list. The configuration store is
    /// assumed to keep a written list as it is; this function does not
    /// ask it.
    pub fn after_write(rules: Vec<ExceptionRule>) -> (stored: StoredRules)
        ensures
            stored@ == written(rule_views(rules@)),
    {
        StoredRules::Present(rules)
    }
}

/// Appends one enabled record, made of the two fields as received, to
/// what a read of the key gave, and returns the list to write back.
/// An absent or malformed value counts as an empty list. The caller
/// hands in fields that match by exactly one of them, as
/// [`discriminates`] tests.
pub fn append(stored: StoredRules, app_id: String, title: String) -> (rules: Vec<ExceptionRule>)
    requires
        new_rule(app_id@, title@).discriminating(),
    ensures
        rule_views(rules@) == appended(stored@, app_id@, title@),
        rules@.len() == existing(stored@).len() + 1,
        forall|i: int|
            0 <= i < existing(stored@).len() ==> (#[trigger] rules@[i])@ == existing(stored@)[i],
        rules@[rules@.len() - 1]@ == new_rule(app_id@, title@),
        rules@[rules@.len() - 1]@.discriminating(),
{
    let ghost before = existing(stored@);
    let mut rules = stored.into_existing();
    let ghost kept = rules@;
    let rule = ExceptionRule { app_id, title, enabled: true };
    rules.push(rule);
    assert(rule_views(rules@) =~= rule_views(kept).push(rule@));
    assert forall|i: int| 0 <= i < before.len() implies (#[trigger] rules@[i])@ == before[i] by {
        assert(rule_views(kept)[i] == kept[i]@);
    }
    rules
}

/// Appends as [`append`] does, but refuses a malformed value instead of
/// overwriting it: `None` exactly where [`StoredRules::discards_prior`]
/// holds, so that the caller can save the value before it is lost.
pub fn append_if_readable(stored: StoredRules, app_id: String, title: String) -> (rules: Option<
    Vec<ExceptionRule>,
>)
    requires
        new_rule(app_id@, title@).discriminating(),
    ensures
        rules is None <==> stored@ == StoredView::Malformed,
        rules matches Some(list) ==> rule_views(list@) == appended(stored@, app_id@, title@),
{
    if stored.discards_prior() {
        None
    } else {
        Some(append(stored, app_id, title))
    }
}

/// An append keeps every earlier record, in its place, and puts the new
/// record last.
pub proof fn append_keeps_existing(stored: StoredView, app_id: Seq<char>, title: Seq<char>)
    ensures
        appended(stored, app_id, title).len() == existing(stored).len() + 1,
        appended(stored, app_id, title).subrange(0, existing(stored).len() as int) == existing(
            stored,
        ),
        appended(stored, app_id, title).last() == new_rule(app_id, title),
        appended(stored, app_id, title).last().enabled,
{
    assert(appended(stored, app_id, title).subrange(0, existing(stored).len() as int)
        =~= existing(stored));
}

/// An append to a key that is absent gives a list of exactly one record.
pub proof fn append_to_absent_is_single(app_id: Seq<char>, title: Seq<char>)
    ensures
        appended(StoredView::Absent, app_id, title) == seq![new_rule(app_id, title)],
        appended(StoredView::Absent, app_id, title).len() == 1,
{
    assert(appended(StoredView::Absent, app_id, title) =~= seq![new_rule(app_id, title)]);
}

/// An append to a malformed value gives a list of exactly one record:
/// nothing of the earlier content is kept.
pub proof fn append_to_malformed_is_single(app_id: Seq<char>, title: Seq<char>)
    ensures
        appended(StoredView::Malformed, app_id, title) == seq![new_rule(app_id, title)],
        appended(StoredView::Malformed, app_id, title).len() == 1,
{
    assert(appended(StoredView::Malformed, app_id, title) =~= seq![new_rule(app_id, title)]);
}

/// Under the library's assumption about the store (see [`written`]), a
/// list that is written and read back is the same list: as many
/// records, with the same fields, in the same order. The law holds by
/// what `written` is defined to be; it says what the library relies on,
/// not what the store has been shown to do.
pub proof fn write_then_read_is_identity(rules: Seq<RuleView>)
    ensures
        existing(written(rules)) == rules,
        existing(written(rules)).len() == rules.len(),
        forall|i: int| 0 <= i < rules.len() ==> existing(written(rules))[i] == rules[i],
{
}

/// Two appends in a row, the second on what the first wrote, add two
/// records in call order and leave the first as the first call made it.
pub proof fn append_twice_in_call_order(
    stored: StoredView,
    first_app_id: Seq<char>,
    first_title: Seq<char>,
    second_app_id: Seq<char>,
    second_title: Seq<char>,
)
    ensures
        ({
            let once = appended(stored, first_app_id, first_title);
            let twice = appended(written(once), second_app_id, second_title);
            &&& twice.len() == existing(stored).len() + 2
            &&& twice == existing(stored).push(new_rule(first_app_id, first_title)).push(
                new_rule(second_app_id, second_title),
            )
            &&& twice.subrange(0, once.len() as int) == once
            &&& twice[twice.len() - 2] == new_rule(first_app_id, first_title)
            &&& twice[twice.len() - 1] == new_rule(second_app_id, second_title)
            &&& existing(stored).len() == 0 ==> twice == seq![
                new_rule(first_app_id, first_title),
                new_rule(second_app_id, second_title),
            ]
        }),
{
    let once = appended(stored, first_app_id, first_title);
    let twice = appended(written(once), second_app_id, second_title);
    assert(twice.subrange(0, once.len() as int) =~= once);
    if existing(stored).len() == 0 {
        assert(twice =~= seq![
            new_rule(first_app_id, first_title),
            new_rule(second_app_id, second_title),
        ]);
    }
}

} // verus!
