//! Structured, colour-highlighted error messages for command-line programs.
//!
//! A message is a one-line summary, an ordered list of supporting reasons,
//! and an optional block of muted help text.  The library proves exactly
//! what each constructor and mutator does to the message and what string a
//! message renders to, down to the ANSI escape sequences.
//!
//! Two sibling presentations are offered: [`UserFacingError`], which renders
//! with fixed escape-code prefixes, and [`UserError`] (in [`styled`]), which
//! styles its segments through the `colorful` crate.

use vstd::prelude::*;
use vstd::string::StringExecFns;

pub mod helper;
pub mod scrawl_errors;
pub mod sqlite_errors;
pub mod stdio_errors;
pub mod style;
pub mod styled;

pub use styled::UserError;

verus! {

/// `Error:` label on a red background, then bold red text for the summary.
pub const SUMMARY_PREFIX: &'static str = "\u{001b}[97;41;22mError:\u{001b}[91;49;1m ";

/// Yellow ` - ` bullet, then bold white text for one reason.
pub const REASON_PREFIX: &'static str = "\u{001b}[93;49;1m - \u{001b}[97;49;1m";

/// Muted white text for the help block.
pub const HELPTEXT_PREFIX: &'static str = "\u{001b}[37;49;2m";

/// Closes every styled run.
pub const RESET: &'static str = "\u{001b}[0m";

/// The character texts of a list of strings, in order.
pub open spec fn texts(v: Seq<String>) -> Seq<Seq<char>> {
    v.map_values(|s: String| s@)
}

/// Ghost model of a message: the summary characters, the reason texts in
/// display order, and the help text, with absent fields as `None`.
pub struct MessageModel {
    pub summary: Seq<char>,
    pub reasons: Option<Seq<Seq<char>>>,
    pub helptext: Option<Seq<char>>,
}

/// The summary segment: the `Error:` label, the summary text, and a reset.
pub open spec fn spec_pretty_summary(s: Seq<char>) -> Seq<char> {
    SUMMARY_PREFIX@ + s + RESET@
}

/// The bulleted reason lines joined by newlines, without the closing reset.
pub open spec fn spec_bullets(rs: Seq<Seq<char>>) -> Seq<char>
    decreases rs.len(),
{
    if rs.len() == 0 {
        Seq::empty()
    } else if rs.len() == 1 {
        REASON_PREFIX@ + rs[0]
    } else {
        spec_bullets(rs.drop_last()) + "\n"@ + REASON_PREFIX@ + rs.last()
    }
}

/// The reasons segment: one bulleted line per reason, then a reset.
pub open spec fn spec_pretty_reasons(rs: Seq<Seq<char>>) -> Seq<char> {
    spec_bullets(rs) + RESET@
}

/// The help segment: the muted prefix, the help text, and a reset.
pub open spec fn spec_pretty_helptext(h: Seq<char>) -> Seq<char> {
    HELPTEXT_PREFIX@ + h + RESET@
}

/// The full render: the summary segment, then the reasons segment if any
/// reasons are present, then the help segment if help text is present, each
/// segment closed by a newline and nothing printed for an absent segment.
pub open spec fn spec_rendered(m: MessageModel) -> Seq<char> {
    spec_pretty_summary(m.summary) + "\n"@ + (match m.reasons {
        Some(rs) => spec_pretty_reasons(rs) + "\n"@,
        None => Seq::empty(),
    }) + (match m.helptext {
        Some(h) => spec_pretty_helptext(h) + "\n"@,
        None => Seq::empty(),
    })
}

/// The headline, supporting reasons, and optional help text of one
/// user-facing error message.
pub struct UserFacingError {
    summary: String,
    reasons: Option<Vec<String>>,
    helptext: Option<String>,
}

impl View for UserFacingError {
    type V = MessageModel;

    closed spec fn view(&self) -> MessageModel {
        MessageModel {
            summary: self.summary@,
            reasons: match self.reasons {
                Some(rs) => Some(texts(rs@)),
                None => None,
            },
            helptext: match self.helptext {
                Some(h) => Some(h@),
                None => None,
            },
        }
    }
}

impl UserFacingError {
    /// Absence of reasons is `None`, never an empty list.
    pub open spec fn wf(&self) -> bool {
        match self@.reasons {
            Some(rs) => rs.len() > 0,
            None => true,
        }
    }

    /// Builds a message whose summary is `summary`, or the generated
    /// placeholder when `summary` is empty, with no reasons and no help
    /// text.
    pub fn new(summary: &str) -> (r: UserFacingError)
        ensures
            r@.summary == if summary@.len() == 0 {
                helper::spec_default_summary(helper::FALLBACK_APP_NAME@)
            } else {
                summary@
            },
            r@.reasons is None,
            r@.helptext is None,
            r.wf(),
    {
        let summary = if summary.is_empty() {
            helper::default_summary(helper::FALLBACK_APP_NAME)
        } else {
            summary.to_owned()
        };
        UserFacingError { summary, reasons: None, helptext: None }
    }

    /// The summary text.
    pub fn summary(&self) -> (r: String)
        ensures
            r@ == self@.summary,
    {
        self.summary.clone()
    }

    /// The recorded reasons, in display order; `None` when there are none.
    pub fn reasons(&self) -> (r: Option<Vec<String>>)
        ensures
            match r {
                Some(rs) => self@.reasons == Some(texts(rs@)),
                None => self@.reasons is None,
            },
    {
        match &self.reasons {
            Some(rs) => Some(cloned_strings(rs)),
            None => None,
        }
    }

    /// The help text, if any was set.
    pub fn helptext(&self) -> (r: Option<String>)
        ensures
            match r {
                Some(h) => self@.helptext == Some(h@),
                None => self@.helptext is None,
            },
    {
        match &self.helptext {
            Some(h) => Some(h.clone()),
            None => None,
        }
    }

    /// Replaces the summary; reasons and help text are untouched.
    pub fn update(&mut self, summary: &str)
        ensures
            final(self)@.summary == summary@,
            final(self)@.reasons == old(self)@.reasons,
            final(self)@.helptext == old(self)@.helptext,
            old(self).wf() ==> final(self).wf(),
    {
        self.summary = summary.to_owned();
    }

    /// Replaces the summary and records the old summary as the new leading
    /// reason.
    pub fn push(&mut self, new_summary: &str)
        ensures
            final(self)@.summary == new_summary@,
            final(self)@.reasons == Some(
                seq![old(self)@.summary] + match old(self)@.reasons {
                    Some(rs) => rs,
                    None => Seq::empty(),
                },
            ),
            final(self)@.helptext == old(self)@.helptext,
            final(self).wf(),
    {
        let old_summary = self.summary.clone();
        match &mut self.reasons {
            Some(rs) => {
                rs.insert(0, old_summary);
            },
            None => {
                self.reasons = Some(vec![old_summary]);
            },
        }
        self.summary = new_summary.to_owned();
        proof {
            assert(self@.reasons->Some_0 =~= seq![old(self)@.summary] + (match old(self)@.reasons {
                Some(rs) => rs,
                None => Seq::<Seq<char>>::empty(),
            }));
        }
    }

    /// Appends `reason` to the reasons, creating the list if it was absent.
    pub fn reason(self, reason: &str) -> (r: UserFacingError)
        ensures
            r@.summary == self@.summary,
            r@.reasons == Some(
                (match self@.reasons {
                    Some(rs) => rs,
                    None => Seq::empty(),
                }) + seq![reason@],
            ),
            r@.helptext == self@.helptext,
            r.wf(),
    {
        let UserFacingError { summary, reasons, helptext } = self;
        let mut rs: Vec<String> = match reasons {
            Some(v) => v,
            None => Vec::new(),
        };
        rs.push(reason.to_owned());
        let r = UserFacingError { summary, reasons: Some(rs), helptext };
        proof {
            assert(r@.reasons->Some_0 =~= (match self@.reasons {
                Some(rs) => rs,
                None => Seq::<Seq<char>>::empty(),
            }) + seq![reason@]);
        }
        r
    }

    /// Removes every reason: the message is back to having none.
    pub fn clear_reasons(&mut self)
        ensures
            final(self)@.summary == old(self)@.summary,
            final(self)@.reasons is None,
            final(self)@.helptext == old(self)@.helptext,
    {
        self.reasons = None;
    }

    /// Sets the help text, replacing any earlier block.
    pub fn help(self, helptext: &str) -> (r: UserFacingError)
        ensures
            r@.summary == self@.summary,
            r@.reasons == self@.reasons,
            r@.helptext == Some(helptext@),
    {
        let UserFacingError { summary, reasons, helptext: _ } = self;
        UserFacingError { summary, reasons, helptext: Some(helptext.to_owned()) }
    }

    /// Removes the help text.
    pub fn clear_helptext(&mut self)
        ensures
            final(self)@.summary == old(self)@.summary,
            final(self)@.reasons == old(self)@.reasons,
            final(self)@.helptext is None,
    {
        self.helptext = None;
    }

    /// Renders the message: the styled summary, then one bulleted line per
    /// reason, then the muted help text, each present segment ending in a
    /// newline.
    pub fn to_string(&self) -> (r: String)
        ensures
            r@ == spec_rendered(self@),
    {
        let mut out = pretty_summary(self.summary.as_str());
        out.append("\n");
        match &self.reasons {
            Some(rs) => {
                let block = reasons_block(rs);
                out.append(block.as_str());
                out.append("\n");
            },
            None => {},
        }
        match &self.helptext {
            Some(h) => {
                let block = helptext_block(h.as_str());
                out.append(block.as_str());
                out.append("\n");
            },
            None => {},
        }
        out
    }
}

/// The help segment for the help text `h`.
fn helptext_block(h: &str) -> (r: String)
    ensures
        r@ == spec_pretty_helptext(h@),
{
    let mut out = HELPTEXT_PREFIX.to_owned();
    out.append(h);
    out.append(RESET);
    out
}

/// One string per entry, texts unchanged.
fn cloned_strings(v: &Vec<String>) -> (r: Vec<String>)
    ensures
        texts(r@) == texts(v@),
{
    let mut r: Vec<String> = Vec::new();
    let mut i: usize = 0;
    while i < v.len()
        invariant
            i <= v.len(),
            r@.len() == i,
            forall|j: int| 0 <= j < i ==> r@[j]@ == v@[j]@,
        decreases v.len() - i,
    {
        r.push(v[i].clone());
        i += 1;
    }
    proof {
        assert(texts(r@) =~= texts(v@));
    }
    r
}

/// The reasons derived from a causal chain: the display text of each cause,
/// outermost cause first, root cause last; `None` when the chain is empty.
pub fn error_sources(sources: &Vec<String>) -> (r: Option<Vec<String>>)
    ensures
        match r {
            Some(rs) => sources@.len() > 0 && texts(rs@) == texts(sources@),
            None => sources@.len() == 0,
        },
{
    if sources.len() > 0 {
        Some(cloned_strings(sources))
    } else {
        None
    }
}

/// The summary and reasons a message derives from a foreign error: the
/// error's display text, and one reason per cause in its chain, outermost
/// cause first.
pub fn get_ufe_struct_members(display: &str, sources: &Vec<String>) -> (r: (
    String,
    Option<Vec<String>>,
))
    ensures
        r.0@ == display@,
        match r.1 {
            Some(rs) => sources@.len() > 0 && texts(rs@) == texts(sources@),
            None => sources@.len() == 0,
        },
{
    (display.to_owned(), error_sources(sources))
}

impl UserFacingError {
    /// Builds the message a foreign error converts to: the summary is the
    /// error's display text `display`, and the reasons are the display texts
    /// of its causal chain `sources`, outermost cause first, root cause
    /// last; an empty chain leaves the reasons absent.
    pub fn from_error_parts(display: &str, sources: &Vec<String>) -> (r: UserFacingError)
        ensures
            r@.summary == display@,
            sources@.len() == 0 ==> r@.reasons is None,
            sources@.len() > 0 ==> r@.reasons == Some(texts(sources@)),
            r@.helptext is None,
            r.wf(),
    {
        let (summary, reasons) = get_ufe_struct_members(display, sources);
        UserFacingError { summary, reasons, helptext: None }
    }
}

/// The summary segment for `summary`.
pub fn pretty_summary(summary: &str) -> (r: String)
    ensures
        r@ == spec_pretty_summary(summary@),
{
    let mut out = SUMMARY_PREFIX.to_owned();
    out.append(summary);
    out.append(RESET);
    out
}

/// The reasons segment for the reasons `rs`.
fn reasons_block(rs: &Vec<String>) -> (r: String)
    ensures
        r@ == spec_pretty_reasons(texts(rs@)),
{
    let mut out = String::new();
    let mut i: usize = 0;
    while i < rs.len()
        invariant
            i <= rs.len(),
            out@ == spec_bullets(texts(rs@.take(i as int))),
        decreases rs.len() - i,
    {
        if i > 0 {
            out.append("\n");
        }
        out.append(REASON_PREFIX);
        out.append(rs[i].as_str());
        proof {
            let prev = texts(rs@.take(i as int));
            let cur = texts(rs@.take((i + 1) as int));
            assert(cur.drop_last() =~= prev);
            assert(cur.last() == rs@[i as int]@);
            if i == 0 {
                assert(out@ =~= spec_bullets(cur));
            } else {
                assert(out@ =~= spec_bullets(cur));
            }
        }
        i += 1;
    }
    proof {
        assert(texts(rs@.take(rs@.len() as int)) =~= texts(rs@));
    }
    out.append(RESET);
    out
}

/// The reasons segment for an optional reason list: `None` stays `None`,
/// and a present list yields its styled block, even when the list is empty.
pub fn pretty_reasons(reasons: Option<Vec<String>>) -> (r: Option<String>)
    ensures
        match reasons {
            Some(rs) => r matches Some(s) && s@ == spec_pretty_reasons(texts(rs@)),
            None => r is None,
        },
{
    match reasons {
        Some(rs) => Some(reasons_block(&rs)),
        None => None,
    }
}

/// The newline-join of `lines`: the lines in order, a single newline
/// between neighbours, nothing before the first or after the last.
pub open spec fn spec_joined(lines: Seq<Seq<char>>) -> Seq<char>
    decreases lines.len(),
{
    if lines.len() == 0 {
        Seq::empty()
    } else if lines.len() == 1 {
        lines[0]
    } else {
        spec_joined(lines.drop_last()) + "\n"@ + lines.last()
    }
}

/// Law: the reasons block is the newline-join of exactly one bulleted line
/// per recorded reason, line `i` being the bullet prefix followed by reason
/// `i`'s text; so a message carries as many bulleted lines as reasons, in
/// recording order.
pub proof fn lemma_bullets_are_joined_lines(rs: Seq<Seq<char>>)
    ensures
        spec_bullets(rs) == spec_joined(rs.map_values(|r: Seq<char>| REASON_PREFIX@ + r)),
        rs.map_values(|r: Seq<char>| REASON_PREFIX@ + r).len() == rs.len(),
        forall|i: int|
            0 <= i < rs.len() ==> rs.map_values(|r: Seq<char>| REASON_PREFIX@ + r)[i]
                == REASON_PREFIX@ + rs[i],
    decreases rs.len(),
{
    let lines = rs.map_values(|r: Seq<char>| REASON_PREFIX@ + r);
    if rs.len() == 0 {
    } else if rs.len() == 1 {
        assert(spec_joined(lines) == lines[0]);
    } else {
        lemma_bullets_are_joined_lines(rs.drop_last());
        assert(rs.drop_last().map_values(|r: Seq<char>| REASON_PREFIX@ + r) =~= lines.drop_last());
    }
}

/// Law: a message with a summary and nothing else renders to the summary
/// segment alone, and carries the summary text verbatim, right after the
/// summary prefix.
pub proof fn lemma_fresh_render_is_summary_only(m: MessageModel)
    requires
        m.reasons is None,
        m.helptext is None,
    ensures
        spec_rendered(m) == SUMMARY_PREFIX@ + m.summary + RESET@ + "\n"@,
        spec_rendered(m).subrange(
            SUMMARY_PREFIX@.len() as int,
            SUMMARY_PREFIX@.len() + m.summary.len() as int,
        ) == m.summary,
{
    assert(spec_rendered(m) =~= SUMMARY_PREFIX@ + m.summary + RESET@ + "\n"@);
    assert(spec_rendered(m).subrange(
        SUMMARY_PREFIX@.len() as int,
        SUMMARY_PREFIX@.len() + m.summary.len() as int,
    ) =~= m.summary);
}

/// Law: with no reasons present, the render has no reasons segment and no
/// stray line for one: it is the summary segment, then the help segment if
/// help text is present, and nothing more.
pub proof fn lemma_cleared_reasons_render(m: MessageModel)
    requires
        m.reasons is None,
    ensures
        spec_rendered(m) == match m.helptext {
            None => spec_pretty_summary(m.summary) + "\n"@,
            Some(h) => spec_pretty_summary(m.summary) + "\n"@ + spec_pretty_helptext(h) + "\n"@,
        },
{
    match m.helptext {
        None => {
            assert(spec_rendered(m) =~= spec_pretty_summary(m.summary) + "\n"@);
        },
        Some(h) => {
            assert(spec_rendered(m) =~= spec_pretty_summary(m.summary) + "\n"@
                + spec_pretty_helptext(h) + "\n"@);
        },
    }
}

/// Law: rendering is deterministic, so rendering one unmutated message
/// twice yields byte-identical output.
pub proof fn lemma_render_deterministic(m: MessageModel, r1: Seq<char>, r2: Seq<char>)
    requires
        r1 == spec_rendered(m),
        r2 == spec_rendered(m),
    ensures
        r1 == r2,
{
}

/// The help segment for an optional help text: `None` stays `None`.
pub fn pretty_helptext(helptext: Option<String>) -> (r: Option<String>)
    ensures
        match helptext {
            Some(h) => r matches Some(s) && s@ == spec_pretty_helptext(h@),
            None => r is None,
        },
{
    match helptext {
        Some(h) => Some(helptext_block(h.as_str())),
        None => None,
    }
}

} // verus!

