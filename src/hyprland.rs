use vstd::prelude::*;
use vstd::slice::{slice_subrange, slice_to_vec};

use crate::text::{
    bytes_eq, find_sub, first_index, is_first, lemma_split_step, lemma_split_sub_step, parse_decimal,
    position, push_bytes, push_decimal, spec_decimal, spec_parse_decimal, split_on, split_on_sub, starts_with,
};

verus! {

/// A notification of the window manager.
#[derive(Clone, Debug, PartialEq, Eq)]
pub enum Event {
    Workspace { id: usize },
    CreateWorkspace { id: usize },
    DestroyWorkspace { id: usize },
    ActiveWindow { class: Vec<u8>, title: Vec<u8> },
}

/// An `Event` with its text as sequences.
pub enum EventView {
    Workspace { id: nat },
    CreateWorkspace { id: nat },
    DestroyWorkspace { id: nat },
    ActiveWindow { class: Seq<u8>, title: Seq<u8> },
}

impl View for Event {
    type V = EventView;

    open spec fn view(&self) -> EventView {
        match self {
            Event::Workspace { id } => EventView::Workspace { id: *id as nat },
            Event::CreateWorkspace { id } => EventView::CreateWorkspace { id: *id as nat },
            Event::DestroyWorkspace { id } => EventView::DestroyWorkspace { id: *id as nat },
            Event::ActiveWindow { class, title } => EventView::ActiveWindow { class: class@, title: title@ },
        }
    }
}

/// `workspacev2`
pub open spec fn workspace_name() -> Seq<u8> {
    seq![119u8, 111, 114, 107, 115, 112, 97, 99, 101, 118, 50]
}

/// `createworkspacev2`
pub open spec fn create_workspace_name() -> Seq<u8> {
    seq![99u8, 114, 101, 97, 116, 101, 119, 111, 114, 107, 115, 112, 97, 99, 101, 118, 50]
}

/// `destroyworkspacev2`
pub open spec fn destroy_workspace_name() -> Seq<u8> {
    seq![100u8, 101, 115, 116, 114, 111, 121, 119, 111, 114, 107, 115, 112, 97, 99, 101, 118, 50]
}

/// `activewindow`
pub open spec fn active_window_name() -> Seq<u8> {
    seq![97u8, 99, 116, 105, 118, 101, 119, 105, 110, 100, 111, 119]
}

/// The largest `usize`, as a natural number.
pub open spec fn usize_max() -> nat {
    usize::MAX as nat
}

/// The workspace id in a record of the window manager's workspace listing:
/// the number that starts after the thirteenth byte and runs to the next
/// space.
pub open spec fn spec_parse_workspace_id(data: Seq<u8>) -> Option<nat> {
    if data.len() < 13 {
        None
    } else {
        let span = data.subrange(13, data.len() as int);
        match first_index(span, 32) {
            None => None,
            Some(p) => spec_parse_decimal(span.subrange(0, p), usize_max()),
        }
    }
}

/// Reads the id of a workspace record (`workspace ID N (NAME) on ...`).
pub fn parse_workspace_id(data: &[u8]) -> (r: Option<usize>)
    ensures
        r is Some <==> spec_parse_workspace_id(data@) is Some,
        r matches Some(v) ==> v as nat == spec_parse_workspace_id(data@)->0,
{
    if data.len() < 13 {
        return None;
    }
    let span = slice_subrange(data, 13, data.len());
    let pos = match position(span, 32) {
        Some(p) => p,
        None => {
            return None;
        },
    };
    let digits = slice_subrange(span, 0, pos);
    match parse_decimal(digits, usize::MAX as u64) {
        Some(v) => Some(v as usize),
        None => None,
    }
}

/// The id in a workspace event body, `ID,NAME`.
pub open spec fn spec_parse_workspace(body: Seq<u8>) -> Option<nat> {
    match first_index(body, 44) {
        None => None,
        Some(p) => spec_parse_decimal(body.subrange(0, p), usize_max()),
    }
}

fn parse_workspace(body: &[u8]) -> (r: Option<usize>)
    ensures
        r is Some <==> spec_parse_workspace(body@) is Some,
        r matches Some(v) ==> v as nat == spec_parse_workspace(body@)->0,
{
    let pos = match position(body, 44) {
        Some(p) => p,
        None => {
            return None;
        },
    };
    match parse_decimal(slice_subrange(body, 0, pos), usize::MAX as u64) {
        Some(v) => Some(v as usize),
        None => None,
    }
}

/// The event of one line of the window manager's event socket,
/// `KIND>>BODY`; none for a kind the panel does not follow or a body it
/// cannot read.
pub open spec fn spec_parse_line(line: Seq<u8>) -> Option<EventView> {
    match first_index(line, 62) {
        None => None,
        Some(idx) => if idx + 2 > line.len() {
            None
        } else {
            let kind = line.subrange(0, idx);
            let body = line.subrange(idx + 2, line.len() as int);
            if kind == workspace_name() {
                match spec_parse_workspace(body) {
                    Some(id) => Some(EventView::Workspace { id }),
                    None => None,
                }
            } else if kind == create_workspace_name() {
                match spec_parse_workspace(body) {
                    Some(id) => Some(EventView::CreateWorkspace { id }),
                    None => None,
                }
            } else if kind == destroy_workspace_name() {
                match spec_parse_workspace(body) {
                    Some(id) => Some(EventView::DestroyWorkspace { id }),
                    None => None,
                }
            } else if kind == active_window_name() {
                match first_index(body, 44) {
                    Some(c) => Some(EventView::ActiveWindow {
                        class: body.subrange(0, c),
                        title: body.subrange(c + 1, body.len() as int),
                    }),
                    None => None,
                }
            } else {
                None
            }
        },
    }
}

/// Reads one line of the window manager's event socket.
pub fn parse_line(line: &[u8]) -> (r: Option<Event>)
    ensures
        r is Some <==> spec_parse_line(line@) is Some,
        r matches Some(e) ==> e@ == spec_parse_line(line@)->0,
{
    let idx = match position(line, 62) {
        Some(i) => i,
        None => {
            return None;
        },
    };
    if line.len() - idx < 2 {
        return None;
    }
    let kind = slice_subrange(line, 0, idx);
    let body = slice_subrange(line, idx + 2, line.len());
    let workspace: [u8; 11] = [119, 111, 114, 107, 115, 112, 97, 99, 101, 118, 50];
    let create_workspace: [u8; 17] = [99, 114, 101, 97, 116, 101, 119, 111, 114, 107, 115, 112, 97, 99, 101, 118, 50];
    let destroy_workspace: [u8; 18] = [100, 101, 115, 116, 114, 111, 121, 119, 111, 114, 107, 115, 112, 97, 99, 101, 118, 50];
    let active_window: [u8; 12] = [97, 99, 116, 105, 118, 101, 119, 105, 110, 100, 111, 119];
    if bytes_eq(kind, &workspace) {
        match parse_workspace(body) {
            Some(id) => Some(Event::Workspace { id }),
            None => None,
        }
    } else if bytes_eq(kind, &create_workspace) {
        match parse_workspace(body) {
            Some(id) => Some(Event::CreateWorkspace { id }),
            None => None,
        }
    } else if bytes_eq(kind, &destroy_workspace) {
        match parse_workspace(body) {
            Some(id) => Some(Event::DestroyWorkspace { id }),
            None => None,
        }
    } else if bytes_eq(kind, &active_window) {
        match position(body, 44) {
            Some(c) => Some(Event::ActiveWindow {
                class: slice_to_vec(slice_subrange(body, 0, c)),
                title: slice_to_vec(slice_subrange(body, c + 1, body.len())),
            }),
            None => None,
        }
    } else {
        None
    }
}

/// The events of `lines` in order; lines that give none are skipped.
pub open spec fn events_of(lines: Seq<Seq<u8>>) -> Seq<EventView>
    decreases lines.len(),
{
    if lines.len() == 0 {
        seq![]
    } else {
        let head = match spec_parse_line(lines[0]) {
            Some(e) => seq![e],
            None => seq![],
        };
        head + events_of(lines.drop_first())
    }
}

/// The views of events.
pub open spec fn views(es: Seq<Event>) -> Seq<EventView> {
    es.map_values(|e: Event| e@)
}

proof fn lemma_events_cons(x: Seq<u8>, rest: Seq<Seq<u8>>)
    ensures
        events_of(seq![x] + rest) == (match spec_parse_line(x) {
            Some(e) => seq![e],
            None => seq![],
        }) + events_of(rest),
{
    let l = seq![x] + rest;
    assert(l[0] == x);
    assert(l.drop_first() =~= rest);
}

/// Reads what the window manager's event socket sent: one event per
/// newline-separated line that gives one, in order.
pub fn parse_events(buf: &[u8]) -> (r: Vec<Event>)
    ensures
        views(r@) == events_of(split_on(buf@, 10)),
{
    let mut r: Vec<Event> = Vec::new();
    let mut start: usize = 0;
    let mut done = false;
    proof {
        assert(buf@.subrange(0, buf@.len() as int) =~= buf@);
        assert(views(r@) =~= Seq::<EventView>::empty());
        assert(views(r@) + events_of(split_on(buf@, 10)) =~= events_of(split_on(buf@, 10)));
    }
    while !done
        invariant
            start <= buf@.len(),
            !done ==> views(r@) + events_of(split_on(buf@.subrange(start as int, buf@.len() as int), 10))
                == events_of(split_on(buf@, 10)),
            done ==> views(r@) == events_of(split_on(buf@, 10)),
        decreases buf@.len() - start + if done { 0int } else { 1int },
    {
        let ghost before = views(r@);
        let rest = slice_subrange(buf, start, buf.len());
        match position(rest, 10) {
            Some(i) => {
                let line = slice_subrange(rest, 0, i);
                let e = parse_line(line);
                match e {
                    Some(ev) => {
                        r.push(ev);
                    },
                    None => {},
                }
                proof {
                    assert(crate::text::is_first(rest@, 10, i as int));
                    lemma_split_step(rest@, 10, i as int);
                    lemma_events_cons(rest@.subrange(0, i as int), split_on(rest@.subrange(i + 1, rest@.len() as int), 10));
                    assert(rest@.subrange(i + 1, rest@.len() as int) =~= buf@.subrange(start + i + 1, buf@.len() as int));
                    let head = match spec_parse_line(line@) {
                        Some(ev) => seq![ev],
                        None => seq![],
                    };
                    assert(views(r@) =~= before + head);
                }
                start = start + i + 1;
            },
            None => {
                let e = parse_line(rest);
                match e {
                    Some(ev) => {
                        r.push(ev);
                    },
                    None => {},
                }
                proof {
                    assert(!exists|k: int| crate::text::is_first(rest@, 10, k));
                    assert(split_on(rest@, 10) == seq![rest@]);
                    lemma_events_cons(rest@, Seq::empty());
                    assert(events_of(Seq::<Seq<u8>>::empty()) == Seq::<EventView>::empty());
                    let head = match spec_parse_line(rest@) {
                        Some(ev) => seq![ev],
                        None => seq![],
                    };
                    assert(seq![rest@] + Seq::<Seq<u8>>::empty() =~= seq![rest@]);
                    assert(views(r@) =~= before + head);
                }
                done = true;
            },
        }
    }
    r
}

/// Separator of the sections of a batch reply.
pub open spec fn section_sep() -> Seq<u8> {
    seq![10u8, 10, 10, 10, 10]
}

/// Separator of the records of the workspace listing.
pub open spec fn record_sep() -> Seq<u8> {
    seq![10u8, 10]
}

/// `\tclass`
pub open spec fn class_prefix() -> Seq<u8> {
    seq![9u8, 99, 108, 97, 115, 115]
}

/// `\ttitle`
pub open spec fn title_prefix() -> Seq<u8> {
    seq![9u8, 116, 105, 116, 108, 101]
}

/// The workspace creations of the listing's records, in order.
pub open spec fn created_of(records: Seq<Seq<u8>>) -> Seq<EventView>
    decreases records.len(),
{
    if records.len() == 0 {
        seq![]
    } else {
        (match spec_parse_workspace_id(records[0]) {
            Some(id) => seq![EventView::CreateWorkspace { id }],
            None => seq![],
        }) + created_of(records.drop_first())
    }
}

/// What the active-window section said so far: class, title, how many of
/// the two are still wanted, and whether reading stopped.
pub open spec fn window_step(st: (Seq<u8>, Seq<u8>, int, bool), line: Seq<u8>) -> (Seq<u8>, Seq<u8>, int, bool) {
    if st.3 {
        st
    } else {
        let starts_class = class_prefix().len() <= line.len() && line.subrange(0, class_prefix().len() as int)
            == class_prefix();
        let starts_title = title_prefix().len() <= line.len() && line.subrange(0, title_prefix().len() as int)
            == title_prefix();
        let next = if starts_class {
            match first_index(line, 32) {
                Some(p) => (line.subrange(p + 1, line.len() as int), st.1, st.2 - 1, false),
                None => st,
            }
        } else if starts_title {
            match first_index(line, 32) {
                Some(p) => (st.0, line.subrange(p + 1, line.len() as int), st.2 - 1, false),
                None => st,
            }
        } else {
            st
        };
        (next.0, next.1, next.2, next.2 == 0)
    }
}

pub open spec fn window_scan_from(st: (Seq<u8>, Seq<u8>, int, bool), lines: Seq<Seq<u8>>) -> (Seq<u8>, Seq<u8>, int, bool)
    decreases lines.len(),
{
    if lines.len() == 0 {
        st
    } else {
        window_scan_from(window_step(st, lines[0]), lines.drop_first())
    }
}

/// The active window of its section: the text after the first space of its
/// `\tclass` and `\ttitle` lines, empty where there is none.
pub open spec fn active_window_of(section: Seq<u8>) -> EventView {
    let st = window_scan_from((seq![], seq![], 2, false), split_on(section, 10));
    EventView::ActiveWindow { class: st.0, title: st.1 }
}

/// The events of the window manager's reply to
/// `[[BATCH]]workspaces;activeworkspace;activewindow`: a creation for each
/// workspace of the listing, the active workspace, then the active window.
pub open spec fn spec_parse_batch(res: Seq<u8>) -> Seq<EventView> {
    let sections = split_on_sub(res, section_sep());
    created_of(split_on_sub(sections[0], record_sep())) + (if sections.len() > 1 {
        match spec_parse_workspace_id(sections[1]) {
            Some(id) => seq![EventView::Workspace { id }],
            None => seq![],
        }
    } else {
        seq![]
    }) + (if sections.len() > 2 {
        seq![active_window_of(sections[2])]
    } else {
        seq![]
    })
}

proof fn lemma_created_cons(x: Seq<u8>, rest: Seq<Seq<u8>>)
    ensures
        created_of(seq![x] + rest) == (match spec_parse_workspace_id(x) {
            Some(id) => seq![EventView::CreateWorkspace { id }],
            None => seq![],
        }) + created_of(rest),
{
    let l = seq![x] + rest;
    assert(l[0] == x);
    assert(l.drop_first() =~= rest);
}

proof fn lemma_window_cons(st: (Seq<u8>, Seq<u8>, int, bool), x: Seq<u8>, rest: Seq<Seq<u8>>)
    ensures
        window_scan_from(st, seq![x] + rest) == window_scan_from(window_step(st, x), rest),
{
    let l = seq![x] + rest;
    assert(l[0] == x);
    assert(l.drop_first() =~= rest);
}

/// The first piece of `s` split at `p`, and what follows its separator.
fn first_piece<'a>(s: &'a [u8], p: &[u8]) -> (r: (&'a [u8], Option<&'a [u8]>))
    requires
        p@.len() > 0,
    ensures
        split_on_sub(s@, p@)[0] == r.0@,
        r.1 is None ==> split_on_sub(s@, p@).len() == 1,
        r.1 matches Some(rest) ==> split_on_sub(s@, p@) == seq![r.0@] + split_on_sub(rest@, p@) && rest@.len()
            < s@.len(),
{
    let n = s.len();
    match find_sub(s, p) {
        Some(i) => {
            proof {
                lemma_split_sub_step(s@, p@, i as int);
            }
            let k = p.len();
            proof {
                assert(i + k <= n);
            }
            (vstd::slice::slice_subrange(s, 0, i), Some(vstd::slice::slice_subrange(s, i + k, n)))
        },
        None => {
            (s, None)
        },
    }
}

/// The workspace creations of a listing.
fn created(listing: &[u8], out: &mut Vec<Event>)
    ensures
        views(final(out)@) == views(old(out)@) + created_of(split_on_sub(listing@, record_sep())),
{
    let sep: [u8; 2] = [10, 10];
    proof {
        assert(sep@ == record_sep());
    }
    let mut rest = listing;
    let mut done = false;
    proof {
        assert(views(out@) + created_of(split_on_sub(rest@, record_sep())) =~= views(old(out)@) + created_of(
            split_on_sub(listing@, record_sep()),
        ));
    }
    while !done
        invariant
            sep@ == record_sep(),
            !done ==> views(out@) + created_of(split_on_sub(rest@, record_sep())) == views(old(out)@) + created_of(
                split_on_sub(listing@, record_sep()),
            ),
            done ==> views(out@) == views(old(out)@) + created_of(split_on_sub(listing@, record_sep())),
        decreases rest@.len() + if done { 0int } else { 1int },
    {
        let ghost before = views(out@);
        let (piece, next) = first_piece(rest, &sep);
        let ghost pieces = split_on_sub(rest@, record_sep());
        match parse_workspace_id(piece) {
            Some(id) => {
                out.push(Event::CreateWorkspace { id });
            },
            None => {},
        }
        let ghost head = match spec_parse_workspace_id(piece@) {
            Some(id) => seq![EventView::CreateWorkspace { id }],
            None => seq![],
        };
        proof {
            assert(views(out@) =~= before + head);
        }
        match next {
            Some(r) => {
                proof {
                    lemma_created_cons(piece@, split_on_sub(r@, record_sep()));
                }
                rest = r;
            },
            None => {
                proof {
                    assert(pieces =~= seq![piece@] + Seq::<Seq<u8>>::empty());
                    lemma_created_cons(piece@, Seq::empty());
                }
                done = true;
            },
        }
    }
}

/// The active window of its section; see `active_window_of`.
fn active_window(section: &[u8]) -> (r: Event)
    ensures
        r@ == active_window_of(section@),
{
    let class_p: [u8; 6] = [9, 99, 108, 97, 115, 115];
    let title_p: [u8; 6] = [9, 116, 105, 116, 108, 101];
    proof {
        assert(class_p@ == class_prefix());
        assert(title_p@ == title_prefix());
    }
    let mut class: Vec<u8> = Vec::new();
    let mut title: Vec<u8> = Vec::new();
    let mut required: i64 = 2;
    let mut stopped = false;
    let ghost lines = split_on(section@, 10);
    let mut at: usize = 0;
    let mut done = false;
    proof {
        assert(section@.subrange(0, section@.len() as int) =~= section@);
        assert(class@ =~= Seq::<u8>::empty());
        assert(title@ =~= Seq::<u8>::empty());
    }
    while !done
        invariant
            at <= section@.len(),
            lines == split_on(section@, 10),
            class_p@ == class_prefix(),
            title_p@ == title_prefix(),
            0 <= required <= 2,
            stopped == (required == 0),
            !done ==> window_scan_from((class@, title@, required as int, stopped), split_on(
                section@.subrange(at as int, section@.len() as int),
                10,
            )) == window_scan_from((seq![], seq![], 2, false), lines),
            done ==> (class@, title@, required as int, stopped) == window_scan_from((seq![], seq![], 2, false), lines),
        decreases section@.len() - at + if done { 0int } else { 1int },
    {
        let rest = vstd::slice::slice_subrange(section, at, section.len());
        let (line, next) = match position(rest, 10) {
            Some(i) => (vstd::slice::slice_subrange(rest, 0, i), Some(i)),
            None => (rest, None),
        };
        let ghost st = (class@, title@, required as int, stopped);
        if !stopped {
            if starts_with(line, &class_p) {
                if let Some(p) = position(line, 32) {
                    class = vstd::slice::slice_to_vec(vstd::slice::slice_subrange(line, p + 1, line.len()));
                    required = required - 1;
                }
            } else if starts_with(line, &title_p) {
                if let Some(p) = position(line, 32) {
                    title = vstd::slice::slice_to_vec(vstd::slice::slice_subrange(line, p + 1, line.len()));
                    required = required - 1;
                }
            }
            stopped = required == 0;
        }
        proof {
            assert((class@, title@, required as int, stopped) == window_step(st, line@));
        }
        match next {
            Some(i) => {
                proof {
                    lemma_split_step(rest@, 10, i as int);
                    lemma_window_cons(st, line@, split_on(rest@.subrange(i + 1, rest@.len() as int), 10));
                    assert(rest@.subrange(i + 1, rest@.len() as int) =~= section@.subrange(at + i + 1, section@.len() as int));
                }
                at = at + i + 1;
            },
            None => {
                proof {
                    assert(!exists|k: int| is_first(rest@, 10, k));
                    assert(split_on(rest@, 10) == seq![rest@]);
                    lemma_window_cons(st, rest@, Seq::empty());
                    assert(seq![rest@] + Seq::<Seq<u8>>::empty() =~= seq![rest@]);
                }
                done = true;
            },
        }
    }
    Event::ActiveWindow { class, title }
}

/// The request whose reply `parse_batch` reads:
/// `[[BATCH]]workspaces;activeworkspace;activewindow`.
pub fn batch_request() -> (r: Vec<u8>)
    ensures
        r@ == seq![91u8, 91, 66, 65, 84, 67, 72, 93, 93, 119, 111, 114, 107, 115, 112, 97, 99, 101, 115, 59, 97, 99,
            116, 105, 118, 101, 119, 111, 114, 107, 115, 112, 97, 99, 101, 59, 97, 99, 116, 105, 118, 101, 119, 105,
            110, 100, 111, 119],
{
    let b: [u8; 48] = [91, 91, 66, 65, 84, 67, 72, 93, 93, 119, 111, 114, 107, 115, 112, 97, 99, 101, 115, 59, 97, 99,
        116, 105, 118, 101, 119, 111, 114, 107, 115, 112, 97, 99, 101, 59, 97, 99, 116, 105, 118, 101, 119, 105, 110,
        100, 111, 119];
    let mut r: Vec<u8> = Vec::new();
    push_bytes(&mut r, &b);
    r
}

/// Reads the reply to `batch_request`; see `spec_parse_batch`.
pub fn parse_batch(res: &[u8]) -> (r: Vec<Event>)
    ensures
        views(r@) == spec_parse_batch(res@),
{
    let sep: [u8; 5] = [10, 10, 10, 10, 10];
    proof {
        assert(sep@ == section_sep());
    }
    let mut r: Vec<Event> = Vec::new();
    let (s0, rest1) = first_piece(res, &sep);
    created(s0, &mut r);
    proof {
        assert(views(Seq::<Event>::empty()) =~= Seq::<EventView>::empty());
    }
    let rest1 = match rest1 {
        Some(x) => x,
        None => {
            proof {
                assert(views(r@) =~= spec_parse_batch(res@));
            }
            return r;
        },
    };
    let (s1, rest2) = first_piece(rest1, &sep);
    let ghost before = views(r@);
    match parse_workspace_id(s1) {
        Some(id) => {
            r.push(Event::Workspace { id });
        },
        None => {},
    }
    let rest2 = match rest2 {
        Some(x) => x,
        None => {
            proof {
                assert(views(r@) =~= spec_parse_batch(res@));
            }
            return r;
        },
    };
    let (s2, _rest3) = first_piece(rest2, &sep);
    let ghost mid = views(r@);
    r.push(active_window(s2));
    proof {
        assert(views(r@) =~= mid.push(active_window_of(s2@)));
        assert(views(r@) =~= spec_parse_batch(res@));
    }
    r
}

/// `/run/user/`
pub open spec fn run_user() -> Seq<u8> {
    seq![47u8, 114, 117, 110, 47, 117, 115, 101, 114, 47]
}

/// The runtime directory: the one the environment names, else
/// `/run/user/UID`.
pub open spec fn spec_runtime_dir(env: Option<Seq<u8>>, uid: u32) -> Seq<u8> {
    match env {
        Some(d) => d,
        None => run_user() + spec_decimal(uid as nat),
    }
}

/// Builds `spec_runtime_dir`.
pub fn xdg_runtime_dir(env: Option<&[u8]>, uid: u32) -> (r: Vec<u8>)
    ensures
        r@ == spec_runtime_dir(
            match env {
                Some(d) => Some(d@),
                None => None,
            },
            uid,
        ),
{
    match env {
        Some(d) => slice_to_vec(d),
        None => {
            let prefix: [u8; 10] = [47, 114, 117, 110, 47, 117, 115, 101, 114, 47];
            let mut r: Vec<u8> = Vec::new();
            push_bytes(&mut r, &prefix);
            push_decimal(&mut r, uid as u64);
            r
        },
    }
}

/// `hypr`
pub open spec fn hypr_dir() -> Seq<u8> {
    seq![104u8, 121, 112, 114]
}

/// `.socket.sock`
pub open spec fn request_socket() -> Seq<u8> {
    seq![46u8, 115, 111, 99, 107, 101, 116, 46, 115, 111, 99, 107]
}

/// `.socket2.sock`
pub open spec fn event_socket() -> Seq<u8> {
    seq![46u8, 115, 111, 99, 107, 101, 116, 50, 46, 115, 111, 99, 107]
}

/// Where the sockets of one window-manager instance live.
#[derive(Clone, Debug)]
pub struct Context {
    /// `RUNTIME/hypr/SIGNATURE`.
    pub his: Vec<u8>,
}

impl Context {
    /// The instance directory of the instance `signature` under the runtime
    /// directory `runtime_dir`.
    pub fn new(runtime_dir: &[u8], signature: &[u8]) -> (r: Context)
        ensures
            r.his@ == crate::text::spec_join(crate::text::spec_join(runtime_dir@, hypr_dir()), signature@),
    {
        let hypr: [u8; 4] = [104, 121, 112, 114];
        let dir = crate::text::join(runtime_dir, &hypr);
        Context { his: crate::text::join(dir.as_slice(), signature) }
    }

    /// The socket that takes requests and commands.
    pub fn request_socket(&self) -> (r: Vec<u8>)
        ensures
            r@ == crate::text::spec_join(self.his@, request_socket()),
    {
        let name: [u8; 12] = [46, 115, 111, 99, 107, 101, 116, 46, 115, 111, 99, 107];
        crate::text::join(self.his.as_slice(), &name)
    }

    /// The socket that sends events.
    pub fn event_socket(&self) -> (r: Vec<u8>)
        ensures
            r@ == crate::text::spec_join(self.his@, event_socket()),
    {
        let name: [u8; 13] = [46, 115, 111, 99, 107, 101, 116, 50, 46, 115, 111, 99, 107];
        crate::text::join(self.his.as_slice(), &name)
    }
}

/// A command to the window manager, which answers nothing.
#[derive(Clone, Copy, Debug, PartialEq, Eq, Structural)]
pub enum Command {
    Workspace(u8),
}

/// `q/dispatch workspace `
pub open spec fn dispatch_workspace_prefix() -> Seq<u8> {
    seq![113u8, 47, 100, 105, 115, 112, 97, 116, 99, 104, 32, 119, 111, 114, 107, 115, 112, 97, 99, 101, 32]
}

impl Command {
    /// The bytes sent for the command.
    pub open spec fn spec_bytes(self) -> Seq<u8> {
        match self {
            Command::Workspace(id) => dispatch_workspace_prefix() + spec_decimal(id as nat),
        }
    }

    pub fn to_bytes(&self) -> (r: Vec<u8>)
        ensures
            r@ == self.spec_bytes(),
    {
        let mut r: Vec<u8> = Vec::new();
        match self {
            Command::Workspace(id) => {
                let prefix: [u8; 21] = [113, 47, 100, 105, 115, 112, 97, 116, 99, 104, 32, 119, 111, 114, 107, 115, 112, 97, 99, 101, 32];
                push_bytes(&mut r, &prefix);
                push_decimal(&mut r, *id as u64);
            },
        }
        r
    }
}

/// A request to the window manager, which answers with text.
#[derive(Clone, Copy, Debug, PartialEq, Eq, Structural)]
pub enum Request {
    ActiveWindow,
}

impl Request {
    pub open spec fn spec_bytes(self) -> Seq<u8> {
        match self {
            Request::ActiveWindow => active_window_name(),
        }
    }

    /// The bytes sent for the request.
    pub fn to_bytes(&self) -> (r: Vec<u8>)
        ensures
            r@ == self.spec_bytes(),
    {
        let mut r: Vec<u8> = Vec::new();
        match self {
            Request::ActiveWindow => {
                let name: [u8; 12] = [97, 99, 116, 105, 118, 101, 119, 105, 110, 100, 111, 119];
                push_bytes(&mut r, &name);
            },
        }
        r
    }
}

/// The window manager's answer to a request.
#[derive(Clone, Debug, PartialEq, Eq)]
pub enum Response {
    Raw(Vec<u8>),
}

} // verus!
