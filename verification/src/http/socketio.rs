//! The adapter protocol of Socket.IO: a socket that emits to a room or to
//! everyone hands the adapter a packet and the scope of the emit, and a
//! server that receives such a packet from the adapter emits it to the same
//! scope.

use vstd::prelude::*;

verus! {

/// Who an emit reaches: the sockets in any of `rooms` (every socket when
/// there is no room), except the sockets in `except`.
pub struct BroadcastScope {
    pub rooms: Vec<String>,
    pub except: Vec<String>,
}

/// The view of a list of strings.
pub open spec fn strings_view(v: Seq<String>) -> Seq<Seq<char>> {
    v.map_values(|s: String| s@)
}

/// The scope a socket hands the adapter: everyone but itself, or the room
/// it emits to, but itself.
pub fn emit_scope(room: Option<String>, socket_id: String) -> (s: BroadcastScope)
    ensures
        strings_view(s.rooms@) == (match room {
            Some(r) => seq![r@],
            None => Seq::<Seq<char>>::empty(),
        }),
        strings_view(s.except@) == seq![socket_id@],
{
    let rooms = match room {
        Some(r) => vec![r],
        None => Vec::new(),
    };
    let except = vec![socket_id];
    let s = BroadcastScope { rooms, except };
    assert(strings_view(s.except@) =~= seq![s.except@[0]@]);
    proof {
        if s.rooms@.len() == 1 {
            assert(strings_view(s.rooms@) =~= seq![s.rooms@[0]@]);
        } else {
            assert(strings_view(s.rooms@) =~= Seq::<Seq<char>>::empty());
        }
    }
    s
}

/// An entry of a list in the options PHP hands over: a string, or
/// anything else.
#[derive(Debug, Clone, PartialEq, Eq)]
pub enum OptionEntry {
    Text(String),
    Other,
}

/// The strings of a list of entries, in order; other entries are skipped.
pub open spec fn texts_of(v: Seq<OptionEntry>) -> Seq<Seq<char>>
    decreases v.len(),
{
    if v.len() == 0 {
        Seq::empty()
    } else {
        let rest = texts_of(v.drop_last());
        match v.last() {
            OptionEntry::Text(t) => rest.push(t@),
            OptionEntry::Other => rest,
        }
    }
}

fn texts(v: &Vec<OptionEntry>) -> (r: Vec<String>)
    ensures
        strings_view(r@) == texts_of(v@),
{
    let mut out: Vec<String> = Vec::new();
    let mut i: usize = 0;
    while i < v.len()
        invariant
            i <= v@.len(),
            strings_view(out@) == texts_of(v@.take(i as int)),
        decreases v@.len() - i,
    {
        proof {
            assert(v@.take(i + 1).drop_last() =~= v@.take(i as int));
        }
        match &v[i] {
            OptionEntry::Text(t) => {
                out.push(t.clone());
                assert(strings_view(out@) =~= strings_view(out@.drop_last()).push(t@));
            },
            OptionEntry::Other => {},
        }
        i = i + 1;
    }
    assert(v@.take(i as int) =~= v@);
    out
}

/// The scope of a packet received from the adapter: the string entries of
/// its `rooms` and `except` lists (a missing list is empty).
pub fn publish_scope(rooms: Option<Vec<OptionEntry>>, except: Option<Vec<OptionEntry>>) -> (s:
    BroadcastScope)
    ensures
        strings_view(s.rooms@) == (match rooms {
            Some(v) => texts_of(v@),
            None => Seq::<Seq<char>>::empty(),
        }),
        strings_view(s.except@) == (match except {
            Some(v) => texts_of(v@),
            None => Seq::<Seq<char>>::empty(),
        }),
{
    let r = match rooms {
        Some(v) => texts(&v),
        None => {
            let e: Vec<String> = Vec::new();
            assert(strings_view(e@) =~= Seq::<Seq<char>>::empty());
            e
        },
    };
    let x = match except {
        Some(v) => texts(&v),
        None => {
            let e: Vec<String> = Vec::new();
            assert(strings_view(e@) =~= Seq::<Seq<char>>::empty());
            e
        },
    };
    BroadcastScope { rooms: r, except: x }
}

/// The entries PHP sees for a list of strings.
pub open spec fn as_entries(v: Seq<String>) -> Seq<OptionEntry> {
    v.map_values(|s: String| OptionEntry::Text(s))
}

proof fn lemma_texts_of_entries(v: Seq<String>)
    ensures
        texts_of(as_entries(v)) == strings_view(v),
    decreases v.len(),
{
    if v.len() > 0 {
        lemma_texts_of_entries(v.drop_last());
        assert(as_entries(v).drop_last() =~= as_entries(v.drop_last()));
        assert(strings_view(v) =~= strings_view(v.drop_last()).push(v.last()@));
    } else {
        assert(strings_view(v) =~= Seq::<Seq<char>>::empty());
    }
}

/// The adapter carries an emit's scope unchanged: a server that receives
/// the scope a socket handed over (its rooms, when there are any, and its
/// exceptions, as lists of strings) emits to the same rooms, except the
/// same sockets.
pub proof fn law_adapter_keeps_scope(rooms: Seq<String>, except: Seq<String>)
    ensures
        texts_of(as_entries(rooms)) == strings_view(rooms),
        texts_of(as_entries(except)) == strings_view(except),
{
    lemma_texts_of_entries(rooms);
    lemma_texts_of_entries(except);
}

} // verus!
