//! Names that client and server agree on.

use crate::text;
use vstd::prelude::*;

verus! {

/// The default tyo-mq server port.
pub const DEFAULT_PORT: u16 = 17352;

/// Subscribe to an event (or topic pattern) from any producer.
pub const ALL_PRODUCERS: &'static str = "TYO-MQ-ALL";

/// The event for lowered names: those of a producer, in the scope of all its
/// events, or those of a producer and an event together.
pub open spec fn lowered_event(lowered: Seq<char>, all: bool) -> Seq<char> {
    if all {
        "CONSUME-"@ + lowered + "-TM-ALL"@
    } else {
        "CONSUME-"@ + lowered
    }
}

/// The Socket.IO event on which deliveries for a subscription arrive.
pub open spec fn consume_event(producer: Seq<char>, event: Seq<char>, scope: Seq<char>) -> Seq<
    char,
> {
    if scope == "all"@ {
        lowered_event(text::lowercase(producer), true)
    } else {
        lowered_event(text::lowercase(producer + "-"@ + event), false)
    }
}

/// Whether a name is one on which deliveries can arrive.
pub open spec fn is_consume_event(name: Seq<char>) -> bool {
    "CONSUME-"@.is_prefix_of(name)
}

/// Whether a name is one on which deliveries of a single event can arrive: no
/// capital letter of ASCII follows its prefix.
pub open spec fn is_single_event(name: Seq<char>) -> bool {
    &&& is_consume_event(name)
    &&& forall|i: int|
        "CONSUME-"@.len() <= i < name.len() ==> !text::is_ascii_capital(#[trigger] name[i])
}

/// The consume event for names in ASCII, character by character.
pub open spec fn ascii_consume_event(
    producer: Seq<char>,
    event: Seq<char>,
    scope: Seq<char>,
) -> Seq<char> {
    if scope == "all"@ {
        "CONSUME-"@ + text::ascii_lowered(producer) + "-TM-ALL"@
    } else {
        "CONSUME-"@ + text::ascii_lowered(producer) + "-"@ + text::ascii_lowered(event)
    }
}

/// Whether the names that a consume event is made of are in ASCII: in scope "all"
/// the event is not among them.
pub open spec fn is_named_in_ascii(
    producer: Seq<char>,
    event: Seq<char>,
    scope: Seq<char>,
) -> bool {
    text::is_ascii(producer) && (scope == "all"@ || text::is_ascii(event))
}

/// An all-events name has a capital letter behind its prefix.
pub(crate) proof fn lemma_all_events_name_is_no_single_event(lowered: Seq<char>)
    ensures
        !is_single_event(lowered_event(lowered, true)),
{
    reveal_strlit("-TM-ALL");
    let name = lowered_event(lowered, true);
    assert(name[name.len() - 6] == "-TM-ALL"@[1]);
    assert(text::is_ascii_capital(name[name.len() - 6]));
}

/// The consume event for names that are in lower case already: a producer's
/// where `all` is set, else a producer's and an event's, joined by a dash.
pub fn consume_event_of_lowered(lowered: &str, all: bool) -> (res: String)
    ensures
        res@ == lowered_event(lowered@, all),
        !all ==> res@ == "CONSUME-"@ + lowered@,
        all ==> res@ == "CONSUME-"@ + lowered@ + "-TM-ALL"@,
{
    let res = "CONSUME-".to_owned().concat(lowered);
    if all {
        res.concat("-TM-ALL")
    } else {
        res
    }
}

/// The Socket.IO event on which deliveries for a subscription arrive.
///
/// The name of a single event is never that of all events of a producer. The
/// letter case of ASCII names makes no difference.
pub fn consume_event_name(producer: &str, event: &str, scope: &str) -> (res: String)
    ensures
        res@ == consume_event(producer@, event@, scope@),
        scope@ != "all"@ ==> res@ == "CONSUME-"@ + text::lowercase(producer@ + "-"@ + event@),
        scope@ == "all"@ ==> res@ == "CONSUME-"@ + text::lowercase(producer@) + "-TM-ALL"@,
        scope@ != "all"@ ==> is_single_event(res@),
        scope@ != "all"@ ==> forall|p: Seq<char>, e: Seq<char>|
            res@ != #[trigger] consume_event(p, e, "all"@),
        is_named_in_ascii(producer@, event@, scope@) ==> res@ == ascii_consume_event(
            producer@,
            event@,
            scope@,
        ),
        is_named_in_ascii(producer@, event@, scope@) ==> res@ == ascii_consume_event(
            text::ascii_lowered(producer@),
            text::ascii_lowered(event@),
            scope@,
        ),
{
    proof {
        reveal_strlit("-");
        text::lemma_ascii_lowered_again(producer@);
        text::lemma_ascii_lowered_again(event@);
        assert(text::ascii_lowered(producer@ + "-"@ + event@) =~= text::ascii_lowered(producer@)
            + "-"@ + text::ascii_lowered(event@));
    }
    if text::same(scope, "all") {
        consume_event_of_lowered(text::lower(producer).as_str(), true)
    } else {
        let joined = producer.to_owned().concat("-").concat(event);
        let res = consume_event_of_lowered(text::lower(joined.as_str()).as_str(), false);
        proof {
            assert forall|p: Seq<char>, e: Seq<char>| res@ != #[trigger] consume_event(
                p,
                e,
                "all"@,
            ) by {
                lemma_all_events_name_is_no_single_event(text::lowercase(p));
            }
            if is_named_in_ascii(producer@, event@, scope@) {
                assert(res@ =~= ascii_consume_event(producer@, event@, scope@));
            }
        }
        res
    }
}

} // verus!
