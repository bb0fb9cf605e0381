//! Topics of the data stream.
//!
//! A topic reads `aegis.<session_id>.<data_type>.<symbol>[.<timeframe>]`.

use vstd::prelude::*;
use crate::text;

verus! {

/// Components of a full topic.
#[derive(Debug, Clone, PartialEq, Eq)]
pub struct TopicParts {
    pub session_id: String,
    pub data_type: String,
    pub symbol: String,
    /// `None` for flat types (trades, aggTrades, bookDepth, metrics).
    pub timeframe: Option<String>,
}

/// What [`TopicParts`] hold.
pub struct TopicPartsView {
    pub session_id: Seq<char>,
    pub data_type: Seq<char>,
    pub symbol: Seq<char>,
    pub timeframe: Option<Seq<char>>,
}

impl TopicPartsView {
    /// The parts of a topic. The first piece must be `aegis`, three more must
    /// follow it, and what comes after the fifth is passed over.
    pub open spec fn of(topic: Seq<char>) -> Option<TopicPartsView> {
        let pieces = text::split(topic, '.');
        if pieces.len() < 4 || pieces[0] != "aegis"@ {
            None
        } else {
            Some(
                TopicPartsView {
                    session_id: pieces[1],
                    data_type: pieces[2],
                    symbol: pieces[3],
                    timeframe: if pieces.len() > 4 {
                        Some(pieces[4])
                    } else {
                        None
                    },
                },
            )
        }
    }

    /// The topic with these parts.
    pub open spec fn topic(self) -> Seq<char> {
        let flat = "aegis"@.push('.') + self.session_id.push('.') + self.data_type.push('.')
            + self.symbol;
        match self.timeframe {
            Some(tf) => flat.push('.') + tf,
            None => flat,
        }
    }

    /// Whether no part holds a separator.
    pub open spec fn dot_free(self) -> bool {
        &&& !self.session_id.contains('.')
        &&& !self.data_type.contains('.')
        &&& !self.symbol.contains('.')
        &&& self.timeframe matches Some(tf) ==> !tf.contains('.')
    }
}

/// Parsing undoes writing: a topic written from parts without separators has
/// these parts.
pub proof fn law_topic_round_trip(parts: TopicPartsView)
    requires
        parts.dot_free(),
    ensures
        TopicPartsView::of(parts.topic()) == Some(parts),
{
    reveal_strlit("aegis");
    let rest3 = match parts.timeframe {
        Some(tf) => parts.symbol.push('.') + tf,
        None => parts.symbol,
    };
    let rest2 = parts.data_type.push('.') + rest3;
    let rest1 = parts.session_id.push('.') + rest2;
    assert(!"aegis"@.contains('.'));
    assert(parts.topic() =~= "aegis"@.push('.') + rest1);
    text::lemma_split_cut("aegis"@, '.', rest1);
    text::lemma_split_cut(parts.session_id, '.', rest2);
    text::lemma_split_cut(parts.data_type, '.', rest3);
    if let Some(tf) = parts.timeframe {
        text::lemma_split_cut(parts.symbol, '.', tf);
    }
}

/// A topic has parts exactly where it begins with `aegis.` and holds three
/// separators or more, and a timeframe exactly where it holds four or more. The
/// parts hold none.
pub proof fn law_topic_parts(topic: Seq<char>)
    ensures
        TopicPartsView::of(topic) is Some <==> {
            &&& "aegis."@.is_prefix_of(topic)
            &&& text::occurrences(topic, '.') >= 3
        },
        TopicPartsView::of(topic) matches Some(parts) ==> {
            &&& parts.dot_free()
            &&& parts.timeframe is Some <==> text::occurrences(topic, '.') >= 4
        },
{
    reveal_strlit("aegis");
    reveal_strlit("aegis.");
    text::law_split(topic, '.');
    assert("aegis."@ =~= "aegis"@.push('.'));
    let pieces = text::split(topic, '.');
    if "aegis."@.is_prefix_of(topic) {
        let tail = topic.skip(6);
        assert(topic =~= "aegis"@.push('.') + tail);
        assert(!"aegis"@.contains('.'));
        text::lemma_split_cut("aegis"@, '.', tail);
    } else if pieces.len() >= 2 && pieces[0] == "aegis"@ {
        assert("aegis."@ =~= topic.take(6));
    }
}

/// Reading a topic: after `aegis.` come the session, the data type and the
/// symbol, each up to the next dot, and then the timeframe where there is one.
/// What follows the timeframe is passed over.
pub proof fn law_topic_read(
    session: Seq<char>,
    data_type: Seq<char>,
    symbol: Seq<char>,
    timeframe: Option<Seq<char>>,
    more: Seq<char>,
)
    requires
        !session.contains('.'),
        !data_type.contains('.'),
        !symbol.contains('.'),
        timeframe matches Some(tf) ==> !tf.contains('.'),
        timeframe is None ==> more.len() == 0,
        more.len() > 0 ==> more[0] == '.',
    ensures
        ({
            let flat = "aegis."@ + session + "."@ + data_type + "."@ + symbol;
            let topic = match timeframe {
                Some(tf) => flat + "."@ + tf + more,
                None => flat,
            };
            &&& TopicPartsView::of(topic) matches Some(parts)
            &&& parts.session_id == session
            &&& parts.data_type == data_type
            &&& parts.symbol == symbol
            &&& parts.timeframe == timeframe
        }),
{
    reveal_strlit("aegis");
    reveal_strlit("aegis.");
    reveal_strlit(".");
    assert(!"aegis"@.contains('.'));
    let flat = "aegis."@ + session + "."@ + data_type + "."@ + symbol;
    let topic = match timeframe {
        Some(tf) => flat + "."@ + tf + more,
        None => flat,
    };
    let rest3 = match timeframe {
        Some(tf) => symbol.push('.') + (tf + more),
        None => symbol,
    };
    let rest2 = data_type.push('.') + rest3;
    let rest1 = session.push('.') + rest2;
    assert(topic =~= "aegis"@.push('.') + rest1);
    text::lemma_split_cut("aegis"@, '.', rest1);
    text::lemma_split_cut(session, '.', rest2);
    text::lemma_split_cut(data_type, '.', rest3);
    if let Some(tf) = timeframe {
        text::lemma_split_cut(symbol, '.', tf + more);
        if more.len() > 0 {
            assert(tf + more =~= tf.push('.') + more.skip(1));
            text::lemma_split_cut(tf, '.', more.skip(1));
        } else {
            assert(tf + more =~= tf);
        }
    }
}

/// A topic that has parts is made of them: it reads `aegis.`, the session, the
/// data type and the symbol, and then the timeframe where there is one, with
/// dots between them and none in them. Every other topic has none.
pub proof fn law_topic_made_of_parts(topic: Seq<char>)
    ensures
        TopicPartsView::of(topic) matches Some(parts) ==> {
            let flat = "aegis."@ + parts.session_id + "."@ + parts.data_type + "."@ + parts.symbol;
            &&& !parts.session_id.contains('.')
            &&& !parts.data_type.contains('.')
            &&& !parts.symbol.contains('.')
            &&& parts.timeframe is None ==> topic == flat
            &&& parts.timeframe matches Some(tf) ==> {
                &&& !tf.contains('.')
                &&& exists|more: Seq<char>|
                    topic == #[trigger] (flat + "."@ + tf + more) && (more.len() > 0 ==> more[0]
                        == '.')
            }
        },
{
    reveal_strlit("aegis");
    reveal_strlit("aegis.");
    reveal_strlit(".");
    text::law_split(topic, '.');
    let pieces = text::split(topic, '.');
    if let Some(parts) = TopicPartsView::of(topic) {
        let flat = "aegis."@ + parts.session_id + "."@ + parts.data_type + "."@ + parts.symbol;
        let p1 = pieces.skip(1);
        let p2 = p1.skip(1);
        let p3 = p2.skip(1);
        let after1 = text::join(p1, '.');
        let after2 = text::join(p2, '.');
        let after3 = text::join(p3, '.');
        assert(topic == pieces[0].push('.') + after1);
        assert(after1 == parts.session_id.push('.') + after2);
        assert(after2 == parts.data_type.push('.') + after3);
        if parts.timeframe is None {
            assert(after3 == parts.symbol);
            assert(topic =~= flat);
        } else {
            let tf = parts.timeframe->0;
            let p4 = p3.skip(1);
            let after4 = text::join(p4, '.');
            assert(after3 == parts.symbol.push('.') + after4);
            let more = if p4.len() == 1 {
                Seq::empty()
            } else {
                seq!['.'] + text::join(p4.skip(1), '.')
            };
            assert(after4 =~= tf + more);
            assert(topic =~= flat + "."@ + tf + more);
        }
    }
}

/// The view of the parts shows each of them.
pub proof fn law_parts_shown(parts: TopicParts)
    ensures
        parts.view().session_id == parts.session_id@,
        parts.view().data_type == parts.data_type@,
        parts.view().symbol == parts.symbol@,
        parts.timeframe is None <==> parts.view().timeframe is None,
        parts.timeframe matches Some(tf) ==> parts.view().timeframe == Some(tf@),
{
}

impl TopicParts {
    /// What the parts hold.
    pub open spec fn view(&self) -> TopicPartsView {
        TopicPartsView {
            session_id: self.session_id@,
            data_type: self.data_type@,
            symbol: self.symbol@,
            timeframe: match self.timeframe {
                Some(tf) => Some(tf@),
                None => None,
            },
        }
    }

    /// The first five pieces of the topic, or all of them where there are fewer.
    fn leading_pieces(topic: &str) -> (res: Vec<String>)
        ensures
            ({
                let pieces = text::split(topic@, '.');
                &&& res.len() == if pieces.len() > 5 {
                    5
                } else {
                    pieces.len()
                }
                &&& forall|k: int| 0 <= k < res.len() ==> (#[trigger] res[k])@ == pieces[k]
            }),
    {
        let n: usize = topic.unicode_len();
        let mut pieces: Vec<String> = Vec::new();
        let mut start: usize = 0;
        let mut i: usize = 0;
        let ghost all = text::split(topic@, '.');
        assert(topic@.skip(0) =~= topic@);
        assert(topic@.subrange(0, 0) =~= Seq::empty());
        for c in it: topic.chars()
            invariant
                it.seq() == topic@,
                n == topic@.len(),
                i == it.index(),
                start <= i <= n,
                all == text::split(topic@, '.'),
                !topic@.subrange(start as int, i as int).contains('.'),
                all.len() == pieces.len() + text::split(topic@.skip(start as int), '.').len(),
                all.skip(pieces.len() as int) == text::split(topic@.skip(start as int), '.'),
                pieces.len() < 5,
                forall|k: int| 0 <= k < pieces.len() ==> (#[trigger] pieces[k])@ == all[k],
        {
            let ghost rest = topic@.skip(start as int);
            let ghost piece = topic@.subrange(start as int, i as int);
            assert(c == topic@[i as int]);
            if c == '.' {
                proof {
                    let tail = topic@.skip(i + 1);
                    assert(piece.push('.') + tail =~= rest);
                    text::lemma_split_cut(piece, '.', tail);
                    assert(all[pieces.len() as int] == all.skip(pieces.len() as int)[0]);
                    assert(all.skip(pieces.len() + 1) =~= all.skip(pieces.len() as int).skip(1));
                    assert((seq![piece] + text::split(tail, '.')).skip(1) =~= text::split(tail, '.'));
                }
                pieces.push(topic.substring_char(start, i).to_string());
                start = i + 1;
                if pieces.len() == 5 {
                    return pieces;
                }
                assert(topic@.subrange(start as int, i + 1) =~= Seq::empty());
            } else {
                proof {
                    let longer = topic@.subrange(start as int, i + 1);
                    assert forall|k: int| 0 <= k < longer.len() implies longer[k] != '.' by {
                        if k < piece.len() {
                            assert(piece[k] == longer[k]);
                            assert(piece.contains(piece[k]));
                        }
                    }
                }
            }
            i += 1;
        }
        proof {
            assert(topic@.skip(start as int) =~= topic@.subrange(start as int, n as int));
            assert(all[pieces.len() as int] == all.skip(pieces.len() as int)[0]);
        }
        pieces.push(topic.substring_char(start, n).to_string());
        pieces
    }

    /// Parses a topic. Returns `None` on malformed topics.
    pub fn parse(topic: &str) -> (res: Option<TopicParts>)
        ensures
            match res {
                Some(parts) => TopicPartsView::of(topic@) == Some(parts.view()),
                None => TopicPartsView::of(topic@) is None,
            },
    {
        let parts: Vec<String> = TopicParts::leading_pieces(topic);
        if parts.len() < 4 || !text::same_text(parts[0].as_str(), "aegis") {
            return None;
        }
        Some(
            TopicParts {
                session_id: parts[1].clone(),
                data_type: parts[2].clone(),
                symbol: parts[3].clone(),
                timeframe: if parts.len() > 4 {
                    Some(parts[4].clone())
                } else {
                    None
                },
            },
        )
    }
}

/// Parsing a topic gives its pieces: the session, the data type, the symbol and
/// the timeframe where there is one.
pub proof fn law_topic_parsed(topic: &str, res: Option<TopicParts>)
    requires
        call_ensures(TopicParts::parse, (topic,), res),
    ensures
        res matches Some(parts) ==> {
            let flat = "aegis."@ + parts.session_id@ + "."@ + parts.data_type@ + "."@
                + parts.symbol@;
            &&& parts.timeframe is None ==> topic@ == flat
            &&& parts.timeframe matches Some(tf) ==> exists|more: Seq<char>|
                topic@ == #[trigger] (flat + "."@ + tf@ + more)
        },
        res is None ==> forall|session: Seq<char>, data_type: Seq<char>, symbol: Seq<char>|
            !session.contains('.') && !data_type.contains('.') && !symbol.contains('.') ==> topic@
                != #[trigger] ("aegis."@ + session + "."@ + data_type + "."@ + symbol),
{
    law_topic_made_of_parts(topic@);
    if res is None {
        assert forall|session: Seq<char>, data_type: Seq<char>, symbol: Seq<char>|
            !session.contains('.') && !data_type.contains('.') && !symbol.contains(
                '.',
            ) implies topic@ != #[trigger] ("aegis."@ + session + "."@ + data_type + "."@
            + symbol) by {
            law_topic_read(session, data_type, symbol, None, Seq::empty());
        }
    }
}

} // verus!
