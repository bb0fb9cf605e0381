use libaegis::TopicParts;

fn parts(session: &str, data_type: &str, symbol: &str, timeframe: Option<&str>) -> TopicParts {
    TopicParts {
        session_id: session.to_string(),
        data_type: data_type.to_string(),
        symbol: symbol.to_string(),
        timeframe: timeframe.map(|s| s.to_string()),
    }
}

#[test]
fn topic_with_timeframe() {
    assert_eq!(
        TopicParts::parse("aegis.sess-1.klines.BTCUSDT.1m"),
        Some(parts("sess-1", "klines", "BTCUSDT", Some("1m")))
    );
}

#[test]
fn topic_without_timeframe() {
    assert_eq!(
        TopicParts::parse("aegis.sess-1.aggTrades.ETHUSDT"),
        Some(parts("sess-1", "aggTrades", "ETHUSDT", None))
    );
}

#[test]
fn short_topics_have_no_parts() {
    assert_eq!(TopicParts::parse(""), None);
    assert_eq!(TopicParts::parse("aegis"), None);
    assert_eq!(TopicParts::parse("aegis.s"), None);
    assert_eq!(TopicParts::parse("aegis.s.klines"), None);
}

#[test]
fn topics_begin_with_aegis() {
    assert_eq!(TopicParts::parse("nats.s1.klines.BTCUSDT.1m"), None);
    assert_eq!(TopicParts::parse("other.s.trades.X"), None);
    assert_eq!(TopicParts::parse("Aegis.s.trades.X"), None);
    assert_eq!(TopicParts::parse("aegis2.s.trades.X"), None);
    assert_eq!(TopicParts::parse("aegi.s.trades.X"), None);
    assert_eq!(TopicParts::parse(" aegis.s.trades.X"), None);
    assert_eq!(TopicParts::parse(".aegis.s.trades.X"), None);
    assert_eq!(TopicParts::parse("..."), None);
}

#[test]
fn whatever_follows_the_timeframe_is_dropped() {
    let expected = Some(parts("s", "klines", "X", Some("1m")));
    assert_eq!(TopicParts::parse("aegis.s.klines.X.1m.extra"), expected);
    assert_eq!(TopicParts::parse("aegis.s.klines.X.1m.extra.more"), expected);
    assert_eq!(TopicParts::parse("aegis.s.klines.X.1m."), expected);
}

#[test]
fn empty_pieces_count() {
    assert_eq!(TopicParts::parse("aegis..."), Some(parts("", "", "", None)));
    assert_eq!(TopicParts::parse("aegis...."), Some(parts("", "", "", Some(""))));
    assert_eq!(TopicParts::parse("aegis..klines."), Some(parts("", "klines", "", None)));
}

#[test]
fn pieces_are_cut_between_characters() {
    assert_eq!(
        TopicParts::parse("aegis.sé\u{1F600}.typ\u{e9}.sym.\u{1F601}"),
        Some(parts("sé\u{1F600}", "typ\u{e9}", "sym", Some("\u{1F601}")))
    );
}

#[test]
fn written_topics_parse_back() {
    for tf in [None, Some("5m"), Some("")] {
        let p = parts("sid", "bookDepth", "SOLUSDT", tf);
        let mut topic = format!("aegis.{}.{}.{}", p.session_id, p.data_type, p.symbol);
        if let Some(t) = &p.timeframe {
            topic.push('.');
            topic.push_str(t);
        }
        assert_eq!(TopicParts::parse(&topic), Some(p));
    }
}
