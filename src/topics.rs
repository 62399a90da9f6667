//! The topics that connectors use, and resetting them.
use vstd::prelude::*;
use vstd::string::*;
use crate::connect::connector_url;
use crate::decode::{
    array_field, decode_strings, document, get_array, lemma_prepend_done, lemma_prepend_empty,
    lemma_prepend_step, prepend, read_document, strings_of, DecodeError, DecodeFault, JsonKind,
};
use crate::http::{check_reply, outcome, reply_body, reply_failure, ApiError, ApiFault, HttpReply, Method, Request};
use crate::json::{json_map_members, json_members, json_view, JsonV};
use crate::tasks::valid_uri;

verus! {

/// The topics of one connector.
#[derive(Debug, PartialEq)]
pub struct TopicsList {
    pub topics: Vec<String>,
}

/// The topics of each connector, by connector name, in the reply's order.
#[derive(Debug, PartialEq)]
pub struct Topic {
    pub topics: Vec<(String, TopicsList)>,
}

impl View for Topic {
    type V = Seq<(Seq<char>, Seq<Seq<char>>)>;

    open spec fn view(&self) -> Seq<(Seq<char>, Seq<Seq<char>>)> {
        self.topics@.map_values(|e: (String, TopicsList)| (e.0@, e.1.topics@.map_values(|t: String| t@)))
    }
}

/// The topic lists of the members of an object: each member holds `topics`,
/// a list of strings.
pub open spec fn topics_of(ms: Seq<(Seq<char>, JsonV)>) -> Result<Seq<(Seq<char>, Seq<Seq<char>>)>, DecodeFault>
    decreases ms.len(),
{
    if ms.len() == 0 {
        Ok(Seq::empty())
    } else {
        match array_field(ms[0].1, "topics"@, "topics"@) {
            Err(e) => Err(e),
            Ok(items) => match strings_of(items, "topics"@) {
                Err(e) => Err(e),
                Ok(ts) => prepend(seq![(ms[0].0, ts)], topics_of(ms.drop_first())),
            },
        }
    }
}

/// The topics that a reply body holds: an object keyed by connector name.
pub open spec fn topic_text(body: Seq<char>) -> Result<Seq<(Seq<char>, Seq<Seq<char>>)>, DecodeFault> {
    match document(body) {
        Err(e) => Err(e),
        Ok(JsonV::Object(ms)) => topics_of(ms),
        Ok(_) => Err(DecodeFault::WrongKind(Seq::empty(), JsonKind::Object)),
    }
}

/// Decodes a reply body that lists topics by connector.
pub fn decode_topics(body: &str) -> (r: Result<Topic, DecodeError>)
    ensures
        match r {
            Ok(t) => topic_text(body@) == Ok::<Seq<(Seq<char>, Seq<Seq<char>>)>, DecodeFault>(t@),
            Err(e) => topic_text(body@) == Err::<Seq<(Seq<char>, Seq<Seq<char>>)>, DecodeFault>(e@),
        },
{
    let doc = read_document(body)?;
    let m = match doc.as_object() {
        Some(m) => m,
        None => {
            return Err(DecodeError::WrongKind { path: String::new(), expected: JsonKind::Object });
        },
    };
    let members = json_map_members(m);
    let ghost ms = json_members(*m);
    let mut out: Vec<(String, TopicsList)> = Vec::new();
    let mut i: usize = 0;
    proof {
        assert(ms.skip(0) =~= ms);
        lemma_prepend_empty(topics_of(ms));
    }
    while i < members.len()
        invariant
            members@.len() == ms.len(),
            forall|j: int| 0 <= j < members@.len() ==> (#[trigger] members@[j]).0@ == ms[j].0
                && json_view(*members@[j].1) == ms[j].1,
            i <= members@.len(),
            topic_text(body@) == topics_of(ms),
            topics_of(ms) == prepend(Topic { topics: out }@, topics_of(ms.skip(i as int))),
        decreases members.len() - i,
    {
        let ghost before = Topic { topics: out }@;
        proof {
            assert(ms.skip(i as int).drop_first() =~= ms.skip(i + 1));
            assert(ms.skip(i as int)[0] == ms[i as int]);
        }
        let items = get_array(members[i].1, "topics", "topics")?;
        let ts = decode_strings(items, "topics")?;
        let name: String = members[i].0.clone();
        let ghost entry = (name@, ts@.map_values(|t: String| t@));
        proof {
            lemma_prepend_step(before, entry, topics_of(ms.skip(i + 1)));
        }
        out.push((name, TopicsList { topics: ts }));
        proof {
            assert(Topic { topics: out }@ =~= before.push(entry));
        }
        i = i + 1;
    }
    proof {
        assert(ms.skip(i as int) =~= Seq::<(Seq<char>, JsonV)>::empty());
        lemma_prepend_done(Topic { topics: out }@);
    }
    Ok(Topic { topics: out })
}

/// `GET` on the connector's topics.
pub fn list_topics_request(host: &str, connector_name: &str) -> (r: Request)
    ensures
        r@.method == Method::Get,
        r@.url == connector_url(host@, connector_name@, "/topics"@),
        r@.query.len() == 0,
{
    let mut url = valid_uri(host);
    url.append("/");
    url.append(connector_name);
    url.append("/topics");
    Request { method: Method::Get, url, query: Vec::new() }
}

/// `PUT` on the connector's topic reset resource.
pub fn reset_request(host: &str, connector_name: &str) -> (r: Request)
    ensures
        r@.method == Method::Put,
        r@.url == connector_url(host@, connector_name@, "/topics/reset"@),
        r@.query.len() == 0,
{
    let mut url = valid_uri(host);
    url.append("/");
    url.append(connector_name);
    url.append("/topics/reset");
    Request { method: Method::Put, url, query: Vec::new() }
}

/// Reads the reply of the topic listing.
pub fn list_topics(reply: &HttpReply) -> (r: Result<Topic, ApiError>)
    ensures
        match r {
            Ok(t) => outcome(reply@, topic_text(reply_body(reply@)), None)
                == Ok::<Seq<(Seq<char>, Seq<Seq<char>>)>, ApiFault>(t@),
            Err(e) => outcome(reply@, topic_text(reply_body(reply@)), None)
                == Err::<Seq<(Seq<char>, Seq<Seq<char>>)>, ApiFault>(e@),
        },
{
    let body = check_reply(reply, None)?;
    match decode_topics(body.as_str()) {
        Ok(t) => Ok(t),
        Err(e) => Err(ApiError::MalformedResponse { error: e, body: body.clone() }),
    }
}

/// Reads the reply of a topic reset.
pub fn reset(reply: &HttpReply) -> (r: Result<(), ApiError>)
    ensures
        match r {
            Ok(_) => reply_failure(reply@, None) is None,
            Err(e) => reply_failure(reply@, None) == Some(e@),
        },
{
    check_reply(reply, None)?;
    Ok(())
}

} // verus!
