//! What the subagent surfaces show: the composer's tray row, the sidebar's
//! nested rows, and the Agents panel.
use vstd::prelude::*;
use crate::status_palette::{state_tint, SessionState};
use crate::subagents::{
    observation_key, on_strip, part_key, strip_visible, SubagentPhase, SubagentSummary, Summary,
};
use crate::text::{chars_of, copy_option, decimal, decimal_text, join2, same_text};
use crate::theme::{solid, solid_tint, Theme, Tint};

verus! {

/// The mark of one agent's phase.
#[derive(Debug, Clone, Copy, PartialEq, Eq, Structural)]
pub enum Glyph {
    Equalizer(Tint),
    Check(Tint),
    Triangle(Tint),
    Dot(Tint),
}

/// An equalizer while running, a check when done (in its own hue until seen),
/// a triangle when failed, a neutral dot when only started.
pub open spec fn glyph_of(phase: SubagentPhase, seen: bool, theme: Theme) -> Glyph {
    match phase {
        SubagentPhase::Running => Glyph::Equalizer(state_tint(SessionState::Working, theme)->0),
        SubagentPhase::Done => if seen {
            Glyph::Check(solid_tint(theme.text_faint))
        } else {
            Glyph::Check(state_tint(SessionState::Completed, theme)->0)
        },
        SubagentPhase::Failed => Glyph::Triangle(solid_tint(theme.danger)),
        SubagentPhase::Started => Glyph::Dot(solid_tint(theme.text_faint)),
    }
}

pub fn status_glyph(phase: SubagentPhase, seen: bool, theme: &Theme) -> (r: Glyph)
    ensures
        r == glyph_of(phase, seen, *theme),
{
    match phase {
        SubagentPhase::Running => Glyph::Equalizer(SessionState::Working.color(theme).unwrap()),
        SubagentPhase::Done => {
            if seen {
                Glyph::Check(solid(theme.text_faint))
            } else {
                Glyph::Check(SessionState::Completed.color(theme).unwrap())
            }
        },
        SubagentPhase::Failed => Glyph::Triangle(solid(theme.danger)),
        SubagentPhase::Started => Glyph::Dot(solid(theme.text_faint)),
    }
}

/// Whether a list of keys holds one.
pub open spec fn listed(keys: Seq<String>, key: Seq<char>) -> bool {
    exists|i: int| 0 <= i < keys.len() && (#[trigger] keys[i])@ == key
}

fn holds(keys: &Vec<String>, key: &str) -> (r: bool)
    ensures
        r == listed(keys@, key@),
{
    let mut i: usize = 0;
    while i < keys.len()
        invariant
            i <= keys@.len(),
            forall|k: int| 0 <= k < i ==> (#[trigger] keys@[k])@ != key@,
        decreases keys@.len() - i,
    {
        if same_text(keys[i].as_str(), key) {
            return true;
        }
        i += 1;
    }
    false
}

/// One agent as a line: its element key, mark, title and running time.
pub struct AgentLine {
    pub key: String,
    pub glyph: Glyph,
    pub title: String,
    pub elapsed: Option<String>,
}

/// What a line shows.
#[verifier::ext_equal]
pub struct Line {
    pub key: Seq<char>,
    pub glyph: Glyph,
    pub title: Seq<char>,
    pub elapsed: Option<Seq<char>>,
}

impl DeepView for AgentLine {
    type V = Line;

    open spec fn deep_view(&self) -> Line {
        Line {
            key: self.key@,
            glyph: self.glyph,
            title: self.title@,
            elapsed: self.elapsed.deep_view(),
        }
    }
}

/// The line of one agent.
pub open spec fn line_of(prefix: Seq<char>, s: Summary, seen: bool, theme: Theme, now: i64) -> Line {
    Line {
        key: prefix + s.id,
        glyph: glyph_of(s.status, seen, theme),
        title: s.title,
        elapsed: s.elapsed(now),
    }
}

fn line(prefix: &str, s: &SubagentSummary, seen: bool, theme: &Theme, now: i64) -> (r: AgentLine)
    ensures
        r.deep_view() == line_of(prefix@, s.deep_view(), seen, *theme, now),
{
    AgentLine {
        key: join2(prefix, s.id.as_str()),
        glyph: status_glyph(s.status, seen, theme),
        title: s.title.clone(),
        elapsed: s.elapsed(now),
    }
}

/// The number of agents that settled.
pub open spec fn settled_count(all: Seq<Summary>) -> nat
    decreases all.len(),
{
    if all.len() == 0 {
        0
    } else {
        settled_count(all.drop_last()) + (if all.last().status.is_active() {
            0nat
        } else {
            1
        })
    }
}

fn count_settled(all: &Vec<SubagentSummary>) -> (r: usize)
    ensures
        r == settled_count(all.deep_view()),
        r <= all@.len(),
{
    let ghost views = all.deep_view();
    let mut count: usize = 0;
    let mut i: usize = 0;
    proof {
        assert(views.take(0) =~= Seq::<Summary>::empty());
    }
    while i < all.len()
        invariant
            count <= i <= all@.len(),
            views == all.deep_view(),
            count == settled_count(views.take(i as int)),
        decreases all@.len() - i,
    {
        proof {
            let front = views.take(i + 1);
            assert(front.drop_last() =~= views.take(i as int));
            assert(front.last() == all@[i as int].deep_view());
        }
        if !all[i].status.active() {
            count += 1;
        }
        i += 1;
    }
    proof {
        assert(views.take(i as int) =~= views);
    }
    count
}

/// A tray row: how many agents settled of how many, the pills that fit, what
/// does not fit, and which way the panel's chevron points.
pub struct TrayRow {
    pub counter: String,
    pub pills: Vec<AgentLine>,
    pub more: Option<String>,
    pub chevron_down: bool,
}

/// Whether the user already opened an agent's thread, as the tray sees it.
pub open spec fn seen_on_tray(seen: Seq<String>, chat: Seq<char>, s: Summary) -> bool {
    listed(seen, s.id) || listed(seen, observation_key(chat, s.id))
}

/// The agents on a composer's tray. Without a chat, or with none to show,
/// there is no tray.
pub fn render_agents_tray(chat_id: Option<&str>, summaries: &Vec<SubagentSummary>) -> (r: Option<
    Vec<SubagentSummary>,
>)
    ensures
        ({
            let visible = summaries.deep_view().filter(|s: Summary| on_strip(s));
            &&& r is Some <==> chat_id is Some && visible.len() > 0
            &&& r matches Some(shown) ==> shown.deep_view() == visible
        }),
{
    if chat_id.is_none() {
        return None;
    }
    let visible: Vec<SubagentSummary> = strip_visible(summaries);
    if visible.len() == 0 {
        return None;
    }
    Some(visible)
}

/// The estimated width of a pill, in tenths of a pixel: its mark, paddings and
/// running time, and up to 22 characters of its title.
pub open spec fn pill_width_of(title_chars: nat) -> int {
    740 + 66 * (if title_chars < 22 {
        title_chars as int
    } else {
        22
    })
}

fn pill_width(title: &str) -> (r: u64)
    ensures
        r == pill_width_of(title@.len()),
        r <= 2192,
{
    let chars: usize = chars_of(title).len();
    if chars < 22 {
        740 + 66 * (chars as u64)
    } else {
        2192
    }
}

/// What the first `k` pills take up, in tenths of a pixel, beside the leading
/// label and the trailing chevron.
pub open spec fn tray_used(all: Seq<Summary>, k: int) -> int
    decreases k,
{
    if k <= 0 {
        1080
    } else {
        tray_used(all, k - 1) + pill_width_of(all[k - 1].title.len()) + 60
    }
}

/// Whether the pill at `k` fits behind those before it, with room for the
/// overflow pill unless it is the last.
pub open spec fn pill_fits(all: Seq<Summary>, k: int, width: int) -> bool {
    tray_used(all, k) + pill_width_of(all[k].title.len()) + (if k + 1 < all.len() {
        440int
    } else {
        0
    }) <= width
}

/// How many pills fit from the one at `k` on, up to the first that does not.
pub open spec fn packed(all: Seq<Summary>, k: int, width: int) -> int
    decreases all.len() - k,
{
    if k >= all.len() || !pill_fits(all, k, width) {
        k
    } else {
        packed(all, k + 1, width)
    }
}

/// How many leading pills a tray shows.
pub open spec fn shown_of(all: Seq<Summary>, width: int) -> int {
    packed(all, 0, width)
}

/// How many leading pills fit a tray of `width` tenths of a pixel.
pub fn fitting(summaries: &Vec<SubagentSummary>, width: u32) -> (r: usize)
    ensures
        r == shown_of(summaries.deep_view(), width as int),
        r <= summaries@.len(),
{
    let ghost all = summaries.deep_view();
    let limit: u64 = width as u64;
    let mut used: u64 = 1080;
    let mut shown: usize = 0;
    while shown < summaries.len()
        invariant
            shown <= summaries@.len(),
            all == summaries.deep_view(),
            limit == width,
            used == tray_used(all, shown as int),
            used <= limit + 1080,
            shown_of(all, width as int) == packed(all, shown as int, width as int),
        decreases summaries@.len() - shown,
    {
        proof {
            assert(all[shown as int] == summaries@[shown as int].deep_view());
        }
        let pill: u64 = pill_width(summaries[shown].title.as_str());
        let reserve: u64 = if summaries.len() - shown > 1 {
            440
        } else {
            0
        };
        if used + pill + reserve > limit {
            return shown;
        }
        used = used + pill + 60;
        shown += 1;
    }
    shown
}

/// A tray is packed greedily: every pill before the cut fits, the one at the
/// cut does not, and none are shown beyond those there are.
pub proof fn the_tray_is_packed_to_the_first_misfit(all: Seq<Summary>, width: int)
    ensures
        0 <= shown_of(all, width) <= all.len(),
        forall|k: int| 0 <= k < shown_of(all, width) ==> #[trigger] pill_fits(all, k, width),
        shown_of(all, width) < all.len() ==> !pill_fits(all, shown_of(all, width), width),
{
    packed_up_to(all, 0, width);
}

proof fn packed_up_to(all: Seq<Summary>, from: int, width: int)
    requires
        0 <= from <= all.len(),
    ensures
        from <= packed(all, from, width) <= all.len(),
        forall|k: int|
            from <= k < packed(all, from, width) ==> #[trigger] pill_fits(all, k, width),
        packed(all, from, width) < all.len() ==> !pill_fits(all, packed(all, from, width), width),
    decreases all.len() - from,
{
    if from < all.len() && pill_fits(all, from, width) {
        packed_up_to(all, from + 1, width);
    }
}

/// The tray row over a chat's visible agents, on a tray of `inner_width`
/// tenths of a pixel.
pub fn agents_tray_row(
    chat_id: &str,
    summaries: &Vec<SubagentSummary>,
    inner_width: u32,
    panel_open: bool,
    seen: &Vec<String>,
    now: i64,
    theme: &Theme,
) -> (r: TrayRow)
    ensures
        r.counter@ == decimal_text(settled_count(summaries.deep_view())) + "/"@ + decimal_text(
            summaries@.len(),
        ),
        r.pills@.len() == shown_of(summaries.deep_view(), inner_width as int),
        forall|i: int|
            0 <= i < r.pills@.len() ==> (#[trigger] r.pills@[i]).deep_view() == line_of(
                "agent-pill-"@,
                summaries@[i].deep_view(),
                seen_on_tray(seen@, chat_id@, summaries@[i].deep_view()),
                *theme,
                now,
            ),
        r.more.deep_view() == (if r.pills@.len() < summaries@.len() {
            Some("+"@ + decimal_text((summaries@.len() - r.pills@.len()) as nat))
        } else {
            None
        }),
        r.chevron_down == panel_open,
{
    let shown: usize = fitting(summaries, inner_width);
    let mut counter: String = decimal(count_settled(summaries) as u64);
    counter.append("/");
    let total: String = decimal(summaries.len() as u64);
    counter.append(total.as_str());
    let mut pills: Vec<AgentLine> = Vec::new();
    let mut i: usize = 0;
    while i < shown
        invariant
            i <= shown <= summaries@.len(),
            pills@.len() == i,
            forall|k: int|
                0 <= k < i ==> (#[trigger] pills@[k]).deep_view() == line_of(
                    "agent-pill-"@,
                    summaries@[k].deep_view(),
                    seen_on_tray(seen@, chat_id@, summaries@[k].deep_view()),
                    *theme,
                    now,
                ),
        decreases shown - i,
    {
        let s: &SubagentSummary = &summaries[i];
        let key: String = part_key(chat_id, s.id.as_str());
        let known: bool = holds(seen, s.id.as_str()) || holds(seen, key.as_str());
        pills.push(line("agent-pill-", s, known, theme, now));
        i += 1;
    }
    let more: Option<String> = if shown < summaries.len() {
        let left: String = decimal((summaries.len() - shown) as u64);
        Some(join2("+", left.as_str()))
    } else {
        None
    };
    TrayRow { counter, pills, more, chevron_down: panel_open }
}

/// The pills that fit a tray of `width` tenths of a pixel, and how many do not.
pub fn tray_layout(summaries: &Vec<SubagentSummary>, width: u32) -> (r: (
    Vec<SubagentSummary>,
    usize,
))
    ensures
        r.0.deep_view() == summaries.deep_view().take(
            shown_of(summaries.deep_view(), width as int),
        ),
        r.1 == summaries@.len() - shown_of(summaries.deep_view(), width as int),
{
    let shown: usize = fitting(summaries, width);
    let mut out: Vec<SubagentSummary> = Vec::new();
    let mut i: usize = 0;
    proof {
        assert(out.deep_view() =~= summaries.deep_view().take(0));
    }
    while i < shown
        invariant
            i <= shown <= summaries@.len(),
            out.deep_view() == summaries.deep_view().take(i as int),
        decreases shown - i,
    {
        let ghost sofar = out.deep_view();
        let copy: SubagentSummary = summaries[i].copied();
        out.push(copy);
        proof {
            assert(out.deep_view() =~= sofar.push(copy.deep_view()));
            assert(summaries.deep_view().take(i + 1) =~= sofar.push(copy.deep_view()));
        }
        i += 1;
    }
    (out, summaries.len() - shown)
}

/// How many running agents a chat card lists.
pub const SIDEBAR_CHILD_MAX: usize = 3;

/// The rows below a chat card: running agents and what they leave out.
pub struct SidebarRows {
    pub rows: Vec<AgentLine>,
    pub more: Option<String>,
}

/// The agents known to be running, in order.
pub open spec fn running_of(all: Seq<Summary>) -> Seq<Summary> {
    all.filter(|s: Summary| s.status is Running)
}

/// Up to [`SIDEBAR_CHILD_MAX`] running agents, then how many more run.
pub fn sidebar_children(summaries: &Vec<SubagentSummary>, now: i64, theme: &Theme) -> (r:
    SidebarRows)
    ensures
        ({
            let running = running_of(summaries.deep_view());
            let listed = if running.len() <= SIDEBAR_CHILD_MAX {
                running.len()
            } else {
                SIDEBAR_CHILD_MAX as nat
            };
            &&& r.rows@.len() == listed
            &&& forall|i: int|
                0 <= i < listed ==> (#[trigger] r.rows@[i]).deep_view() == line_of(
                    "sub-child-"@,
                    running[i],
                    true,
                    *theme,
                    now,
                )
            &&& r.more.deep_view() == (if running.len() > SIDEBAR_CHILD_MAX {
                Some(
                    "+"@ + decimal_text((running.len() - SIDEBAR_CHILD_MAX) as nat) + " more"@,
                )
            } else {
                None
            })
        }),
{
    let ghost all = summaries.deep_view();
    let mut rows: Vec<AgentLine> = Vec::new();
    let mut running: usize = 0;
    let mut i: usize = 0;
    proof {
        reveal(Seq::filter);
        assert(all.take(0) =~= Seq::<Summary>::empty());
    }
    while i < summaries.len()
        invariant
            i <= summaries@.len(),
            running <= i,
            all == summaries.deep_view(),
            running == running_of(all.take(i as int)).len(),
            rows@.len() == (if running <= SIDEBAR_CHILD_MAX {
                running
            } else {
                SIDEBAR_CHILD_MAX
            }),
            forall|k: int|
                0 <= k < rows@.len() ==> (#[trigger] rows@[k]).deep_view() == line_of(
                    "sub-child-"@,
                    running_of(all.take(i as int))[k],
                    true,
                    *theme,
                    now,
                ),
        decreases summaries@.len() - i,
    {
        proof {
            reveal(Seq::filter);
            let front = all.take(i + 1);
            assert(front.drop_last() =~= all.take(i as int));
            assert(front.last() == summaries@[i as int].deep_view());
        }
        if summaries[i].status == SubagentPhase::Running {
            if running < SIDEBAR_CHILD_MAX {
                rows.push(line("sub-child-", &summaries[i], true, theme, now));
            }
            running += 1;
        }
        i += 1;
    }
    proof {
        assert(all.take(i as int) =~= all);
    }
    let more: Option<String> = if running > SIDEBAR_CHILD_MAX {
        let left: String = decimal((running - SIDEBAR_CHILD_MAX) as u64);
        let mut out: String = join2("+", left.as_str());
        out.append(" more");
        Some(out)
    } else {
        None
    };
    SidebarRows { rows, more }
}

/// One row of the Agents panel.
pub enum PanelRow {
    Section(String),
    Agent(PanelAgent),
}

/// One agent in the panel.
pub struct PanelAgent {
    pub line: AgentLine,
    pub summary: Option<String>,
    /// Agent type and model, whichever are known.
    pub meta: String,
    /// Neither a summary nor meta: the row keeps its title only.
    pub bare: bool,
}

/// What a panel row shows.
pub enum PanelView {
    Section(Seq<char>),
    Agent { line: Line, summary: Option<Seq<char>>, meta: Seq<char>, bare: bool },
}

impl DeepView for PanelRow {
    type V = PanelView;

    open spec fn deep_view(&self) -> PanelView {
        match self {
            PanelRow::Section(label) => PanelView::Section(label@),
            PanelRow::Agent(agent) => PanelView::Agent {
                line: agent.line.deep_view(),
                summary: agent.summary.deep_view(),
                meta: agent.meta@,
                bare: agent.bare,
            },
        }
    }
}

/// Agent type and model with a dot between them where both are known.
pub open spec fn meta_of(s: Summary) -> Seq<char> {
    match (s.agent_type, s.model) {
        (Some(kind), Some(model)) => kind + " · "@ + model,
        (Some(kind), None) => kind,
        (None, Some(model)) => model,
        (None, None) => Seq::empty(),
    }
}

/// Whether the user already opened an agent's thread, as the panel sees it.
pub open spec fn seen_in_panel(seen: Seq<String>, s: Summary) -> bool {
    listed(seen, s.id) || (s.doc_ref is Some && listed(seen, s.doc_ref->0))
}

/// The panel row of one agent.
pub open spec fn panel_row(s: Summary, seen: Seq<String>, theme: Theme, now: i64) -> PanelView {
    PanelView::Agent {
        line: line_of("agents-row-"@, s, seen_in_panel(seen, s), theme, now),
        summary: s.summary,
        meta: meta_of(s),
        bare: s.summary is None && meta_of(s).len() == 0,
    }
}

/// The rows of the agents of one kind, in order.
pub open spec fn rows_of(
    all: Seq<Summary>,
    active: bool,
    seen: Seq<String>,
    theme: Theme,
    now: i64,
) -> Seq<PanelView>
    decreases all.len(),
{
    if all.len() == 0 {
        Seq::empty()
    } else {
        let before = rows_of(all.drop_last(), active, seen, theme, now);
        if all.last().status.is_active() == active {
            before.push(panel_row(all.last(), seen, theme, now))
        } else {
            before
        }
    }
}

/// A section with its heading, unless it is empty.
pub open spec fn section(heading: Seq<char>, rows: Seq<PanelView>) -> Seq<PanelView> {
    if rows.len() == 0 {
        Seq::empty()
    } else {
        seq![PanelView::Section(heading)] + rows
    }
}

/// The whole panel: active agents, then settled ones, each below a heading.
pub open spec fn panel(all: Seq<Summary>, seen: Seq<String>, theme: Theme, now: i64) -> Seq<
    PanelView,
> {
    section("Active"@, rows_of(all, true, seen, theme, now)) + section(
        "Done · "@ + decimal_text(settled_count(all)),
        rows_of(all, false, seen, theme, now),
    )
}

fn meta_text(s: &SubagentSummary) -> (r: String)
    ensures
        r@ == meta_of(s.deep_view()),
{
    match (&s.agent_type, &s.model) {
        (Some(kind), Some(model)) => {
            let mut out: String = join2(kind.as_str(), " · ");
            out.append(model.as_str());
            out
        },
        (Some(kind), None) => kind.clone(),
        (None, Some(model)) => model.clone(),
        (None, None) => String::new(),
    }
}

fn panel_agent(s: &SubagentSummary, seen: &Vec<String>, theme: &Theme, now: i64) -> (r: PanelRow)
    ensures
        r.deep_view() == panel_row(s.deep_view(), seen@, *theme, now),
{
    let by_doc: bool = match &s.doc_ref {
        Some(doc) => holds(seen, doc.as_str()),
        None => false,
    };
    let known: bool = holds(seen, s.id.as_str()) || by_doc;
    let meta: String = meta_text(s);
    let bare: bool = s.summary.is_none() && meta.as_str().is_empty();
    PanelRow::Agent(
        PanelAgent {
            line: line("agents-row-", s, known, theme, now),
            summary: copy_option(&s.summary),
            meta,
            bare,
        },
    )
}

fn push_rows(
    out: &mut Vec<PanelRow>,
    all: &Vec<SubagentSummary>,
    active: bool,
    seen: &Vec<String>,
    theme: &Theme,
    now: i64,
)
    ensures
        final(out).deep_view() == old(out).deep_view() + rows_of(
            all.deep_view(),
            active,
            seen@,
            *theme,
            now,
        ),
{
    let ghost before = out.deep_view();
    let ghost views = all.deep_view();
    let mut i: usize = 0;
    proof {
        assert(views.take(0) =~= Seq::<Summary>::empty());
        assert(out.deep_view() =~= before + rows_of(views.take(0), active, seen@, *theme, now));
    }
    while i < all.len()
        invariant
            i <= all@.len(),
            views == all.deep_view(),
            out.deep_view() == before + rows_of(views.take(i as int), active, seen@, *theme, now),
        decreases all@.len() - i,
    {
        let ghost sofar = out.deep_view();
        proof {
            let front = views.take(i + 1);
            assert(front.drop_last() =~= views.take(i as int));
            assert(front.last() == all@[i as int].deep_view());
        }
        if all[i].status.active() == active {
            let row: PanelRow = panel_agent(&all[i], seen, theme, now);
            let ghost view = row.deep_view();
            out.push(row);
            proof {
                assert(out.deep_view() =~= sofar.push(view));
                assert(sofar.push(view) =~= before + rows_of(
                    views.take(i as int),
                    active,
                    seen@,
                    *theme,
                    now,
                ).push(view));
            }
        }
        i += 1;
    }
    proof {
        assert(views.take(i as int) =~= views);
    }
}

/// The number of rows of one kind.
proof fn row_counts(all: Seq<Summary>, seen: Seq<String>, theme: Theme, now: i64)
    ensures
        rows_of(all, false, seen, theme, now).len() == settled_count(all),
        rows_of(all, true, seen, theme, now).len() == all.len() - settled_count(all),
    decreases all.len(),
{
    if all.len() > 0 {
        row_counts(all.drop_last(), seen, theme, now);
    }
}

/// The panel over every agent of a chat, or `None` where there is none and the
/// panel says so.
pub fn agents_panel_body(
    summaries: &Vec<SubagentSummary>,
    seen: &Vec<String>,
    now: i64,
    theme: &Theme,
) -> (r: Option<Vec<PanelRow>>)
    ensures
        r is None <==> summaries@.len() == 0,
        r matches Some(rows) ==> rows.deep_view() == panel(
            summaries.deep_view(),
            seen@,
            *theme,
            now,
        ),
{
    if summaries.len() == 0 {
        return None;
    }
    let ghost views = summaries.deep_view();
    proof {
        row_counts(views, seen@, *theme, now);
    }
    let settled: usize = count_settled(summaries);
    let mut out: Vec<PanelRow> = Vec::new();
    proof {
        assert(out.deep_view() =~= Seq::<PanelView>::empty());
    }
    if settled < summaries.len() {
        out.push(PanelRow::Section("Active".to_owned()));
        proof {
            assert(out.deep_view() =~= seq![PanelView::Section("Active"@)]);
        }
        push_rows(&mut out, summaries, true, seen, theme, now);
    }
    let ghost upper = out.deep_view();
    proof {
        assert(upper =~= section("Active"@, rows_of(views, true, seen@, *theme, now)));
    }
    if settled > 0 {
        let count: String = decimal(settled as u64);
        let heading: String = join2("Done · ", count.as_str());
        let ghost label = heading@;
        out.push(PanelRow::Section(heading));
        proof {
            assert(out.deep_view() =~= upper + seq![PanelView::Section(label)]);
        }
        push_rows(&mut out, summaries, false, seen, theme, now);
    }
    proof {
        assert(out.deep_view() =~= panel(views, seen@, *theme, now));
    }
    Some(out)
}

/// Every agent has exactly one row in the panel.
pub proof fn the_panel_shows_every_agent(
    all: Seq<Summary>,
    seen: Seq<String>,
    theme: Theme,
    now: i64,
)
    ensures
        rows_of(all, true, seen, theme, now).len() + rows_of(all, false, seen, theme, now).len()
            == all.len(),
{
    row_counts(all, seen, theme, now);
}

} // verus!
