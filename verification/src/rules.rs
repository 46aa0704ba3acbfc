use vstd::prelude::*;
use crate::error::text;
use crate::grouping::{self, group_sum, keys_unique, tally, text_groups};
use crate::models::{copy_opt_string, Activity};
use crate::pattern::{self, CompiledPattern, regex_escaped, regex_matches, regex_valid};

verus! {

/// A classification rule: activities whose application name or window title
/// matches a pattern get the rule's category and productivity; higher
/// priorities win.
#[derive(Debug)]
pub struct Rule {
    pub id: Option<i64>,
    pub name: String,
    pub app_pattern: Option<String>,
    pub title_pattern: Option<String>,
    pub category: Option<String>,
    pub is_productive: bool,
    pub priority: i32,
}

impl Rule {
    /// A field-for-field copy.
    pub fn duplicate(&self) -> (r: Rule)
        ensures
            r == *self,
    {
        Rule {
            id: self.id,
            name: self.name.clone(),
            app_pattern: copy_opt_string(&self.app_pattern),
            title_pattern: copy_opt_string(&self.title_pattern),
            category: copy_opt_string(&self.category),
            is_productive: self.is_productive,
            priority: self.priority,
        }
    }
}

/// A rule that matched an activity, with the activity and what matched.
#[derive(Debug)]
pub struct RuleMatch {
    pub rule: Rule,
    pub activity: Activity,
    pub matched_patterns: Vec<String>,
}

/// The pattern of a rule for application names (`title == false`) or window
/// titles (`title == true`).
pub open spec fn rule_pattern(r: Rule, title: bool) -> Option<String> {
    if title { r.title_pattern } else { r.app_pattern }
}

/// Where rule `r` is inserted into `s` (ordered by falling priority): after
/// every rule of at least its priority.
pub open spec fn insert_pos(s: Seq<(Seq<char>, Rule)>, prio: i32) -> int
    decreases s.len(),
{
    if s.len() == 0 {
        0
    } else if s[0].1.priority < prio {
        0
    } else {
        1 + insert_pos(s.drop_first(), prio)
    }
}

/// The (pattern, rule) pairs of the rules whose pattern of the given kind is
/// present and compiles, ordered by falling priority; rules of equal priority
/// keep their order (a stable sort).
pub open spec fn pattern_entries(rules: Seq<Rule>, title: bool) -> Seq<(Seq<char>, Rule)>
    decreases rules.len(),
{
    if rules.len() == 0 {
        seq![]
    } else {
        let prev = pattern_entries(rules.drop_last(), title);
        let r = rules.last();
        match rule_pattern(r, title) {
            Some(p) => if regex_valid(p@) {
                prev.insert(insert_pos(prev, r.priority), (p@, r))
            } else {
                prev
            },
            None => prev,
        }
    }
}

/// The view of compiled entries.
pub open spec fn entries_view(v: Seq<(CompiledPattern, Rule)>) -> Seq<(Seq<char>, Rule)> {
    v.map_values(|e: (CompiledPattern, Rule)| (e.0.spec_source(), e.1))
}

/// The rules of the entries whose pattern matches `text`, in entry order, each
/// marked with `title`.
pub open spec fn matching(entries: Seq<(Seq<char>, Rule)>, text: Seq<char>, title: bool) -> Seq<(Rule, bool)>
    decreases entries.len(),
{
    if entries.len() == 0 {
        seq![]
    } else {
        let prev = matching(entries.drop_last(), text, title);
        if regex_matches(entries.last().0, text) {
            prev.push((entries.last().1, title))
        } else {
            prev
        }
    }
}

/// The candidate rules for an activity: those whose application pattern
/// matches its application name, then those whose title pattern matches its
/// window title; each marked with whether it matched the title.
pub open spec fn candidates(
    app: Seq<(Seq<char>, Rule)>,
    titles: Seq<(Seq<char>, Rule)>,
    a: Activity,
) -> Seq<(Rule, bool)> {
    matching(app, a.app_name@, false) + matching(titles, a.window_title@, true)
}

/// `i` holds a highest priority and every later candidate has a lower one
/// (the candidate `Iterator::max_by_key` picks).
pub open spec fn is_best(c: Seq<(Rule, bool)>, i: int) -> bool {
    &&& 0 <= i < c.len()
    &&& forall|j: int| 0 <= j < c.len() ==> #[trigger] c[j].0.priority <= c[i].0.priority
    &&& forall|j: int| i < j < c.len() ==> #[trigger] c[j].0.priority < c[i].0.priority
}

/// What a match records as matched: `app: <name>` or `title: <title>`.
pub open spec fn match_note(a: Activity, title: bool) -> Seq<char> {
    if title { "title: "@ + a.window_title@ } else { "app: "@ + a.app_name@ }
}

/// Classifies activities by their rules.
pub struct RuleEngine {
    rules: Vec<Rule>,
    app_patterns: Vec<(CompiledPattern, Rule)>,
    title_patterns: Vec<(CompiledPattern, Rule)>,
}

impl RuleEngine {
    pub closed spec fn spec_rules(&self) -> Seq<Rule> {
        self.rules@
    }

    /// Rules with a compiled application pattern, by falling priority.
    pub closed spec fn spec_app(&self) -> Seq<(Seq<char>, Rule)> {
        entries_view(self.app_patterns@)
    }

    /// Rules with a compiled title pattern, by falling priority.
    pub closed spec fn spec_titles(&self) -> Seq<(Seq<char>, Rule)> {
        entries_view(self.title_patterns@)
    }

    /// An engine without rules.
    pub fn new() -> (e: RuleEngine)
        ensures
            e.spec_rules().len() == 0,
            e.spec_app().len() == 0,
            e.spec_titles().len() == 0,
    {
        RuleEngine { rules: Vec::new(), app_patterns: Vec::new(), title_patterns: Vec::new() }
    }

    /// Installs `rules`: each rule whose application (title) pattern compiles
    /// joins the application (title) patterns, which are ordered by falling
    /// priority, equal priorities in rule order. Patterns that do not compile
    /// are skipped.
    pub fn load_rules(&mut self, rules: Vec<Rule>)
        ensures
            final(self).spec_rules() == rules@,
            final(self).spec_app() == pattern_entries(rules@, false),
            final(self).spec_titles() == pattern_entries(rules@, true),
    {
        let app = compile_entries(&rules, false);
        let titles = compile_entries(&rules, true);
        self.app_patterns = app;
        self.title_patterns = titles;
        self.rules = rules;
    }

    /// A copy of the installed rules.
    pub fn get_rules(&self) -> (r: Vec<Rule>)
        ensures
            r@ == self.spec_rules(),
    {
        let mut out: Vec<Rule> = Vec::new();
        let n = self.rules.len();
        let mut i: usize = 0;
        while i < n
            invariant
                n == self.rules@.len(),
                i <= n,
                out@ =~= self.rules@.take(i as int),
            decreases n - i,
        {
            out.push(self.rules[i].duplicate());
            i = i + 1;
        }
        assert(self.rules@.take(n as int) =~= self.rules@);
        out
    }

    /// The best rule for an activity: among the rules whose application
    /// pattern matches its application name and those whose title pattern
    /// matches its window title, one of highest priority (the last such
    /// candidate, title matches coming after application matches).
    pub fn classify_activity(&self, activity: &Activity) -> (r: Option<RuleMatch>)
        ensures
            ({
                let c = candidates(self.spec_app(), self.spec_titles(), *activity);
                &&& (r is None <==> c.len() == 0)
                &&& (r matches Some(m) ==> exists|i: int| #[trigger] is_best(c, i) && m.rule == c[i].0
                    && m.activity == *activity && m.matched_patterns@.len() == 1
                    && m.matched_patterns@[0]@ == match_note(*activity, c[i].1))
            }),
    {
        let mut c: Vec<(Rule, bool)> = Vec::new();
        collect_matches(&self.app_patterns, activity.app_name.as_str(), false, &mut c);
        collect_matches(&self.title_patterns, activity.window_title.as_str(), true, &mut c);
        assert(c@ =~= candidates(self.spec_app(), self.spec_titles(), *activity));
        match last_best(&c) {
            Some(i) => {
                let is_title = c[i].1;
                let rule = c[i].0.duplicate();
                let mut note = if is_title { text("title: ") } else { text("app: ") };
                if is_title {
                    note.append(activity.window_title.as_str());
                } else {
                    note.append(activity.app_name.as_str());
                }
                let mut notes: Vec<String> = Vec::new();
                notes.push(note);
                let m = RuleMatch { rule, activity: activity.duplicate(), matched_patterns: notes };
                assert(is_best(c@, i as int));
                Some(m)
            },
            None => None,
        }
    }

    /// Gives the activity the category and productivity of its best rule; an
    /// activity no rule matches is left as it is.
    pub fn apply_rules(&self, activity: &mut Activity)
        ensures
            ({
                let c = candidates(self.spec_app(), self.spec_titles(), *old(activity));
                &&& c.len() == 0 ==> *final(activity) == *old(activity)
                &&& c.len() > 0 ==> exists|i: int| #[trigger] is_best(c, i) && *final(activity) == (Activity {
                    category: c[i].0.category,
                    is_productive: c[i].0.is_productive,
                    ..*old(activity)
                })
            }),
    {
        match self.classify_activity(activity) {
            Some(m) => {
                activity.category = m.rule.category;
                activity.is_productive = m.rule.is_productive;
            },
            None => {},
        }
    }

    /// The best match of each activity that some rule matches, in order.
    pub fn analyze_rules(&self, activities: &Vec<Activity>) -> (r: Vec<RuleMatch>)
        ensures
            r@.len() == matched_activities(self.spec_app(), self.spec_titles(), activities@).len(),
            forall|k: int| 0 <= k < r@.len() ==> #[trigger] best_match(
                self.spec_app(),
                self.spec_titles(),
                r@[k],
                matched_activities(self.spec_app(), self.spec_titles(), activities@)[k],
            ),
    {
        let mut out: Vec<RuleMatch> = Vec::new();
        let n = activities.len();
        let mut i: usize = 0;
        while i < n
            invariant
                n == activities@.len(),
                i <= n,
                out@.len() == matched_activities(self.spec_app(), self.spec_titles(), activities@.take(i as int)).len(),
                forall|k: int| 0 <= k < out@.len() ==> #[trigger] best_match(
                    self.spec_app(),
                    self.spec_titles(),
                    out@[k],
                    matched_activities(self.spec_app(), self.spec_titles(), activities@.take(i as int))[k],
                ),
            decreases n - i,
        {
            let ghost before = matched_activities(self.spec_app(), self.spec_titles(), activities@.take(i as int));
            assert(activities@.take(i + 1).drop_last() =~= activities@.take(i as int));
            assert(activities@.take(i + 1).last() == activities@[i as int]);
            match self.classify_activity(&activities[i]) {
                Some(m) => {
                    out.push(m);
                },
                None => {},
            }
            proof {
                let after = matched_activities(self.spec_app(), self.spec_titles(), activities@.take(i + 1));
                assert forall|k: int| 0 <= k < out@.len() implies #[trigger] best_match(
                    self.spec_app(),
                    self.spec_titles(),
                    out@[k],
                    after[k],
                ) by {
                    if k < before.len() {
                        assert(after[k] == before[k]);
                    }
                }
            }
            i = i + 1;
        }
        assert(activities@.take(n as int) =~= activities@);
        out
    }
}

/// The activities some rule matches, in order.
pub open spec fn matched_activities(
    app: Seq<(Seq<char>, Rule)>,
    titles: Seq<(Seq<char>, Rule)>,
    acts: Seq<Activity>,
) -> Seq<Activity>
    decreases acts.len(),
{
    if acts.len() == 0 {
        seq![]
    } else {
        let prev = matched_activities(app, titles, acts.drop_last());
        if candidates(app, titles, acts.last()).len() > 0 { prev.push(acts.last()) } else { prev }
    }
}

/// `m` is the match `classify_activity` gives for `a`: a best candidate's
/// rule, the activity, and the note of what matched.
pub open spec fn best_match(
    app: Seq<(Seq<char>, Rule)>,
    titles: Seq<(Seq<char>, Rule)>,
    m: RuleMatch,
    a: Activity,
) -> bool {
    let c = candidates(app, titles, a);
    exists|i: int| #[trigger] is_best(c, i) && m.rule == c[i].0 && m.activity == a
        && m.matched_patterns@.len() == 1 && m.matched_patterns@[0]@ == match_note(a, c[i].1)
}

/// How many activities each application has, in order of first appearance.
pub open spec fn app_frequency(acts: Seq<Activity>) -> Seq<(Seq<char>, nat)>
    decreases acts.len(),
{
    if acts.len() == 0 {
        seq![]
    } else {
        tally(app_frequency(acts.drop_last()), acts.last().app_name@, 1)
    }
}

/// The productivity of the first activity of application `name`.
pub open spec fn first_flag(acts: Seq<Activity>, name: Seq<char>) -> bool
    decreases acts.len(),
{
    if acts.len() == 0 {
        false
    } else if acts[0].app_name@ == name {
        acts[0].is_productive
    } else {
        first_flag(acts.drop_first(), name)
    }
}

/// The applications seen at least ten times, in order of first appearance.
pub open spec fn frequent(groups: Seq<(Seq<char>, nat)>) -> Seq<(Seq<char>, nat)>
    decreases groups.len(),
{
    if groups.len() == 0 {
        seq![]
    } else if groups.last().1 >= 10 {
        frequent(groups.drop_last()).push(groups.last())
    } else {
        frequent(groups.drop_last())
    }
}

/// The rule suggested for an application: matches its name literally (where
/// the regex crate accepts the escaped name, exactly the texts that contain
/// it), carries the productivity of its first activity, priority 0, no
/// category.
pub open spec fn is_suggestion(r: Rule, name: Seq<char>, productive: bool) -> bool {
    &&& r.id is None
    &&& r.name@ == "Suggested rule for "@ + name
    &&& r.app_pattern matches Some(p) && p@ == regex_escaped(name) && pattern::matches_literally(p@, name)
    &&& r.title_pattern is None
    &&& r.category is None
    &&& r.is_productive == productive
    &&& r.priority == 0
}

pub proof fn lemma_frequency_sum(acts: Seq<Activity>)
    ensures
        keys_unique(app_frequency(acts)),
        group_sum(app_frequency(acts)) == acts.len(),
    decreases acts.len(),
{
    if acts.len() > 0 {
        lemma_frequency_sum(acts.drop_last());
        grouping::lemma_tally(app_frequency(acts.drop_last()), acts.last().app_name@, 1);
    }
}

/// Rules suggested from how often applications occur: one for each
/// application with at least ten activities, in order of first appearance.
pub fn suggest_rules(activities: &Vec<Activity>) -> (r: Vec<Rule>)
    ensures
        r@.len() == frequent(app_frequency(activities@)).len(),
        forall|k: int| 0 <= k < r@.len() ==> #[trigger] is_suggestion(
            r@[k],
            frequent(app_frequency(activities@))[k].0,
            first_flag(activities@, frequent(app_frequency(activities@))[k].0),
        ),
{
    let n = activities.len();
    let mut counts: Vec<(String, u64)> = Vec::new();
    let mut i: usize = 0;
    while i < n
        invariant
            n == activities@.len(),
            i <= n,
            text_groups(counts@) == app_frequency(activities@.take(i as int)),
        decreases n - i,
    {
        proof {
            assert(activities@.take(i + 1).drop_last() =~= activities@.take(i as int));
            lemma_frequency_sum(activities@.take(i as int));
        }
        grouping::add_text(&mut counts, &activities[i].app_name, 1);
        i = i + 1;
    }
    assert(activities@.take(n as int) =~= activities@);
    let ghost g = app_frequency(activities@);
    let mut out: Vec<Rule> = Vec::new();
    let m = counts.len();
    let mut j: usize = 0;
    while j < m
        invariant
            m == counts@.len(),
            g == text_groups(counts@),
            j <= m,
            out@.len() == frequent(g.take(j as int)).len(),
            forall|k: int| 0 <= k < out@.len() ==> #[trigger] is_suggestion(
                out@[k],
                frequent(g.take(j as int))[k].0,
                first_flag(activities@, frequent(g.take(j as int))[k].0),
            ),
        decreases m - j,
    {
        proof {
            assert(g.take(j + 1).drop_last() =~= g.take(j as int));
            assert(g[j as int] == (counts@[j as int].0@, counts@[j as int].1 as nat));
        }
        if counts[j].1 >= 10 {
            let name = &counts[j].0;
            let mut title = text("Suggested rule for ");
            title.append(name.as_str());
            let productive = first_productive(activities, name);
            let rule = Rule {
                id: None,
                name: title,
                app_pattern: Some(pattern::escape(name.as_str())),
                title_pattern: None,
                category: None,
                is_productive: productive,
                priority: 0,
            };
            out.push(rule);
            proof {
                let f = frequent(g.take(j + 1));
                assert(f == frequent(g.take(j as int)).push(g[j as int]));
                assert forall|k: int| 0 <= k < out@.len() implies #[trigger] is_suggestion(
                    out@[k],
                    f[k].0,
                    first_flag(activities@, f[k].0),
                ) by {
                    if k < out@.len() - 1 {
                        assert(f[k] == frequent(g.take(j as int))[k]);
                    }
                }
            }
        }
        j = j + 1;
    }
    assert(g.take(m as int) =~= g);
    out
}

/// The productivity of the first activity of application `name`.
fn first_productive(activities: &Vec<Activity>, name: &String) -> (b: bool)
    ensures
        b == first_flag(activities@, name@),
{
    let n = activities.len();
    let ghost a = activities@;
    assert(a.skip(0) =~= a);
    let mut i: usize = 0;
    while i < n
        invariant
            n == a.len(),
            a == activities@,
            i <= n,
            first_flag(a, name@) == first_flag(a.skip(i as int), name@),
        decreases n - i,
    {
        assert(a.skip(i as int)[0] == a[i as int]);
        assert(a.skip(i as int).drop_first() =~= a.skip(i + 1));
        if activities[i].app_name == *name {
            return activities[i].is_productive;
        }
        i = i + 1;
    }
    assert(a.skip(n as int).len() == 0);
    false
}

/// Compiles the patterns of one kind and orders them as `pattern_entries`.
fn compile_entries(rules: &Vec<Rule>, title: bool) -> (r: Vec<(CompiledPattern, Rule)>)
    ensures
        entries_view(r@) == pattern_entries(rules@, title),
{
    let mut out: Vec<(CompiledPattern, Rule)> = Vec::new();
    let n = rules.len();
    let mut i: usize = 0;
    while i < n
        invariant
            n == rules@.len(),
            i <= n,
            entries_view(out@) == pattern_entries(rules@.take(i as int), title),
        decreases n - i,
    {
        proof {
            assert(rules@.take(i + 1).drop_last() =~= rules@.take(i as int));
            assert(rules@.take(i + 1).last() == rules@[i as int]);
        }
        let pat = if title { &rules[i].title_pattern } else { &rules[i].app_pattern };
        match pat {
            Some(p) => {
                match pattern::compile_pattern(p) {
                    Some(cp) => {
                        let pos = find_insert_pos(&out, rules[i].priority);
                        let rule = rules[i].duplicate();
                        out.insert(pos, (cp, rule));
                        proof {
                            let prev = pattern_entries(rules@.take(i as int), title);
                            assert(entries_view(out@) =~= prev.insert(pos as int, (p@, rules@[i as int])));
                        }
                    },
                    None => {},
                }
            },
            None => {},
        }
        i = i + 1;
    }
    assert(rules@.take(n as int) =~= rules@);
    out
}

/// The first position whose priority is below `prio` (the length when there
/// is none).
fn find_insert_pos(v: &Vec<(CompiledPattern, Rule)>, prio: i32) -> (p: usize)
    ensures
        p == insert_pos(entries_view(v@), prio),
        p <= v@.len(),
{
    let ghost s = entries_view(v@);
    let n = v.len();
    let mut i: usize = 0;
    assert(s.skip(0) =~= s);
    while i < n && v[i].1.priority >= prio
        invariant
            n == v@.len(),
            s == entries_view(v@),
            i <= n,
            insert_pos(s, prio) == i + insert_pos(s.skip(i as int), prio),
        decreases n - i,
    {
        assert(s.skip(i as int)[0] == s[i as int]);
        assert(s.skip(i as int).drop_first() =~= s.skip(i + 1));
        i = i + 1;
    }
    if i < n {
        assert(s.skip(i as int)[0] == s[i as int]);
    } else {
        assert(s.skip(i as int).len() == 0);
    }
    i
}

/// Appends, in entry order, the rules of the entries whose pattern matches
/// `text`, each marked with `title`.
fn collect_matches(
    entries: &Vec<(CompiledPattern, Rule)>,
    text: &str,
    title: bool,
    out: &mut Vec<(Rule, bool)>,
)
    ensures
        final(out)@ == old(out)@ + matching(entries_view(entries@), text@, title),
{
    let ghost e = entries_view(entries@);
    let ghost start = out@;
    let n = entries.len();
    let mut i: usize = 0;
    while i < n
        invariant
            n == entries@.len(),
            e == entries_view(entries@),
            i <= n,
            out@ == start + matching(e.take(i as int), text@, title),
        decreases n - i,
    {
        proof {
            assert(e.take(i + 1).drop_last() =~= e.take(i as int));
            assert(e.take(i + 1).last() == e[i as int]);
            assert(e[i as int] == (entries@[i as int].0.spec_source(), entries@[i as int].1));
        }
        if pattern::pattern_is_match(&entries[i].0, text) {
            out.push((entries[i].1.duplicate(), title));
            assert(out@ =~= start + matching(e.take(i + 1), text@, title));
        }
        i = i + 1;
    }
    assert(e.take(n as int) =~= e);
}

/// The last candidate of highest priority (what `Iterator::max_by_key`
/// returns); `None` when there are no candidates.
fn last_best(c: &Vec<(Rule, bool)>) -> (r: Option<usize>)
    ensures
        r is None <==> c@.len() == 0,
        r matches Some(i) ==> is_best(c@, i as int),
{
    let n = c.len();
    if n == 0 {
        return None;
    }
    let mut best: usize = 0;
    let mut j: usize = 1;
    while j < n
        invariant
            n == c@.len(),
            0 <= best < j <= n,
            forall|k: int| 0 <= k < j ==> #[trigger] c@[k].0.priority <= c@[best as int].0.priority,
            forall|k: int| best < k < j ==> #[trigger] c@[k].0.priority < c@[best as int].0.priority,
        decreases n - j,
    {
        if c[j].0.priority >= c[best].0.priority {
            best = j;
        }
        j = j + 1;
    }
    Some(best)
}

} // verus!
