//! From one DNS question to one answer: the suffix rule, the records of the
//! answer, the size budget and the response code.

use vstd::prelude::*;
use std::sync::Arc;
use crate::address::Ipv4Address;
use crate::address::Ipv6Address;
use crate::resolver::answer_of;
use crate::resolver::DnsResolver;
use crate::resolver::DnsResponse;
use crate::resolver::DnsResponseModel;
use crate::text::normalize;
use crate::text::normalize_name;
use crate::text::strip_suffix;

verus! {

/// The size that a response over UDP may have.
pub const DNS_UDP_MAX_SIZE: usize = 512;

/// What the header and the question section are estimated to take, the
/// question's name apart.
pub const DNS_OVERHEAD_ESTIMATE: usize = 50;

/// What an A record is estimated to take.
pub const A_RECORD_SIZE: usize = 16;

/// What an AAAA record is estimated to take.
pub const AAAA_RECORD_SIZE: usize = 28;

/// The type that a question asks for.
#[derive(Debug, Clone, Copy, PartialEq, Eq, Structural)]
pub enum RecordType {
    A,
    AAAA,
    /// Any type but A and AAAA.
    Other,
}

/// The code of a response.
#[derive(Debug, Clone, Copy, PartialEq, Eq, Structural)]
pub enum ResponseCode {
    NoError,
    NXDomain,
    Refused,
}

/// Whether a message asks or answers.
#[derive(Debug, Clone, Copy, PartialEq, Eq, Structural)]
pub enum MessageType {
    Query,
    Response,
}

impl MessageType {
    /// Whether a message of this type is answered: a query is, and a message
    /// that is itself a response is dropped.
    pub fn expects_reply(self) -> (answered: bool)
        ensures
            answered == (self == MessageType::Query),
    {
        match self {
            MessageType::Query => true,
            MessageType::Response => false,
        }
    }
}

/// The data of an answer record.
#[derive(Debug, Clone, Copy, PartialEq, Eq)]
pub enum RData {
    A(Ipv4Address),
    AAAA(Ipv6Address),
}

/// One record of an answer.
#[derive(Debug, Clone, PartialEq, Eq)]
pub struct Record {
    pub name: String,
    pub ttl: u32,
    pub data: RData,
}

/// A record as a mathematical value.
pub struct RecordModel {
    pub name: Seq<char>,
    pub ttl: u32,
    pub data: RData,
}

impl View for Record {
    type V = RecordModel;

    open spec fn view(&self) -> RecordModel {
        RecordModel { name: self.name@, ttl: self.ttl, data: self.data }
    }
}

/// The records of a list as mathematical values.
pub open spec fn record_models(records: Seq<Record>) -> Seq<RecordModel> {
    Seq::new(records.len(), |i: int| records[i]@)
}

/// The question of a query: the name as the query wrote it, the length of the
/// name in the message, and the type asked for.
#[derive(Debug, Clone)]
pub struct Question {
    pub name: String,
    pub name_len: usize,
    pub query_type: RecordType,
}

/// A question as a mathematical value.
pub struct QuestionModel {
    pub name: Seq<char>,
    pub name_len: nat,
    pub query_type: RecordType,
}

impl View for Question {
    type V = QuestionModel;

    open spec fn view(&self) -> QuestionModel {
        QuestionModel { name: self.name@, name_len: self.name_len as nat, query_type: self.query_type }
    }
}

/// What is sent back for a query.
#[derive(Debug, Clone, PartialEq, Eq)]
pub struct DnsReply {
    pub response_code: ResponseCode,
    pub authoritative: bool,
    pub answers: Vec<Record>,
    /// How many records the size budget left out.
    pub dropped: usize,
}

/// A reply as a mathematical value.
pub struct ReplyModel {
    pub response_code: ResponseCode,
    pub authoritative: bool,
    pub answers: Seq<RecordModel>,
    pub dropped: nat,
}

impl View for DnsReply {
    type V = ReplyModel;

    open spec fn view(&self) -> ReplyModel {
        ReplyModel {
            response_code: self.response_code,
            authoritative: self.authoritative,
            answers: record_models(self.answers@),
            dropped: self.dropped as nat,
        }
    }
}

/// The name under a suffix: with an empty suffix the whole name; else what
/// stands before the suffix, where the name ends with the suffix and more
/// than the suffix is there.
pub open spec fn stripped(domain: Seq<char>, suffix: Seq<char>) -> Option<Seq<char>> {
    if suffix.len() == 0 {
        Some(domain)
    } else if suffix.is_suffix_of(domain) && domain.len() > suffix.len() {
        Some(domain.take(domain.len() - suffix.len()))
    } else {
        None
    }
}

/// The key that a query's name is looked up under, none where the handler
/// has no authority over the name.
pub open spec fn lookup_key_of(suffix: Seq<char>, query_name: Seq<char>) -> Option<Seq<char>> {
    stripped(normalize(query_name), suffix)
}

/// The estimated size of a record.
pub open spec fn record_size(data: RData) -> nat {
    match data {
        RData::A(_) => A_RECORD_SIZE as nat,
        RData::AAAA(_) => AAAA_RECORD_SIZE as nat,
    }
}

/// The estimated size of a list of records.
pub open spec fn total_size(records: Seq<RecordModel>) -> nat
    decreases records.len(),
{
    if records.len() == 0 {
        0
    } else {
        total_size(records.drop_last()) + record_size(records.last().data)
    }
}

/// What the budget leaves for the answer section of a response to a question
/// whose name has the given length.
pub open spec fn available_space(name_len: nat) -> nat {
    if DNS_OVERHEAD_ESTIMATE + name_len >= DNS_UDP_MAX_SIZE {
        0
    } else {
        (DNS_UDP_MAX_SIZE - DNS_OVERHEAD_ESTIMATE - name_len) as nat
    }
}

/// How many of the records fit: the length of the longest run of leading
/// records whose estimated size is within `space`.
pub open spec fn fit_count(records: Seq<RecordModel>, space: nat) -> nat
    decreases records.len(),
{
    if records.len() == 0 {
        0
    } else if total_size(records) <= space {
        records.len()
    } else {
        fit_count(records.drop_last(), space)
    }
}

/// The records that answer a question of the given type: one for each
/// address of that type, each under the question's name as it was written.
pub open spec fn records_for(
    question: QuestionModel,
    ttl: u32,
    response: DnsResponseModel,
) -> Seq<RecordModel> {
    match question.query_type {
        RecordType::A => Seq::new(
            response.ipv4_addresses.len(),
            |i: int| RecordModel { name: question.name, ttl, data: RData::A(response.ipv4_addresses[i]) },
        ),
        RecordType::AAAA => Seq::new(
            response.ipv6_addresses.len(),
            |i: int|
                RecordModel { name: question.name, ttl, data: RData::AAAA(response.ipv6_addresses[i]) },
        ),
        RecordType::Other => Seq::empty(),
    }
}

/// The reply to a query that the handler has no authority over.
pub open spec fn refused_reply() -> ReplyModel {
    ReplyModel {
        response_code: ResponseCode::Refused,
        authoritative: false,
        answers: Seq::empty(),
        dropped: 0,
    }
}

/// The code of the reply to a query whose name was accepted and not found: a
/// query for an A or AAAA record learns that the name does not exist, and a
/// query for any other type gets no error.
pub open spec fn not_found_code(query_type: RecordType) -> ResponseCode {
    match query_type {
        RecordType::Other => ResponseCode::NoError,
        _ => ResponseCode::NXDomain,
    }
}

/// The reply to a query whose name was accepted, for what the lookup found.
/// It is authoritative exactly where the name was found.
pub open spec fn answered_reply(question: QuestionModel, ttl: u32, found: Option<DnsResponseModel>) -> ReplyModel {
    match found {
        Some(response) => {
            let records = records_for(question, ttl, response);
            let kept = fit_count(records, available_space(question.name_len));
            ReplyModel {
                response_code: ResponseCode::NoError,
                authoritative: true,
                answers: records.take(kept as int),
                dropped: (records.len() - kept) as nat,
            }
        },
        None => ReplyModel {
            response_code: not_found_code(question.query_type),
            authoritative: false,
            answers: Seq::empty(),
            dropped: 0,
        },
    }
}

/// The reply to a query, for what a lookup of its key finds.
pub open spec fn reply_for(
    suffix: Seq<char>,
    ttl: u32,
    question: QuestionModel,
    found: Option<DnsResponseModel>,
) -> ReplyModel {
    if lookup_key_of(suffix, question.name) is Some {
        answered_reply(question, ttl, found)
    } else {
        refused_reply()
    }
}

/// The estimated size grows with each record.
pub proof fn lemma_total_size_take(records: Seq<RecordModel>, shorter: int, longer: int)
    requires
        0 <= shorter <= longer <= records.len(),
    ensures
        total_size(records.take(shorter)) <= total_size(records.take(longer)),
    decreases longer - shorter,
{
    if shorter < longer {
        lemma_total_size_take(records, shorter, longer - 1);
        assert(records.take(longer).drop_last() =~= records.take(longer - 1));
    }
}

/// `fit_count` is the one number of leading records that fits while one more
/// record does not.
pub proof fn lemma_fit_count(records: Seq<RecordModel>, space: nat, kept: int)
    requires
        0 <= kept <= records.len(),
        total_size(records.take(kept)) <= space,
        kept < records.len() ==> total_size(records.take(kept + 1)) > space,
    ensures
        fit_count(records, space) == kept,
    decreases records.len(),
{
    if records.len() > 0 {
        assert(records.take(records.len() as int) =~= records);
        if kept < records.len() {
            lemma_total_size_take(records, kept + 1, records.len() as int);
            let shorter = records.drop_last();
            assert(shorter.take(kept) =~= records.take(kept));
            if kept < shorter.len() {
                assert(shorter.take(kept + 1) =~= records.take(kept + 1));
            }
            lemma_fit_count(shorter, space, kept);
        }
    }
}

/// What `fit_count` keeps is within the space, and one record more is not.
pub proof fn lemma_fit_count_fits(records: Seq<RecordModel>, space: nat)
    ensures
        fit_count(records, space) <= records.len(),
        total_size(records.take(fit_count(records, space) as int)) <= space,
        fit_count(records, space) < records.len() ==> total_size(
            records.take(fit_count(records, space) as int + 1),
        ) > space,
    decreases records.len(),
{
    if records.len() == 0 {
        assert(records.take(0) =~= records);
    } else if total_size(records) <= space {
        assert(records.take(records.len() as int) =~= records);
    } else {
        let shorter = records.drop_last();
        lemma_fit_count_fits(shorter, space);
        let kept = fit_count(shorter, space) as int;
        assert(shorter.take(kept) =~= records.take(kept));
        if kept < shorter.len() {
            assert(shorter.take(kept + 1) =~= records.take(kept + 1));
        } else {
            assert(records.take(kept + 1) =~= records);
        }
    }
}

/// The answers of a reply are within the budget of a response over UDP,
/// whatever the lookup found.
pub proof fn lemma_reply_within_budget(question: QuestionModel, ttl: u32, found: Option<DnsResponseModel>)
    ensures
        total_size(answered_reply(question, ttl, found).answers) <= available_space(question.name_len),
        answered_reply(question, ttl, found).answers.len() > 0 ==> DNS_OVERHEAD_ESTIMATE
            + question.name_len + total_size(answered_reply(question, ttl, found).answers)
            <= DNS_UDP_MAX_SIZE,
{
    match found {
        Some(response) => {
            lemma_fit_count_fits(records_for(question, ttl, response), available_space(question.name_len));
        },
        None => {},
    }
}

/// A query whose normalized name does not end with the suffix is refused, and
/// its reply holds no answer, whatever a lookup would find.
pub proof fn lemma_outside_suffix_refused(
    suffix: Seq<char>,
    ttl: u32,
    question: QuestionModel,
    found: Option<DnsResponseModel>,
)
    requires
        !suffix.is_suffix_of(normalize(question.name)),
    ensures
        reply_for(suffix, ttl, question, found).response_code == ResponseCode::Refused,
        reply_for(suffix, ttl, question, found).answers.len() == 0,
        !reply_for(suffix, ttl, question, found).authoritative,
{
}

/// A query for a type other than A and AAAA whose name is accepted is
/// answered with no error and no record, whether or not the name resolves.
pub proof fn lemma_other_type_no_answers(
    suffix: Seq<char>,
    ttl: u32,
    question: QuestionModel,
    found: Option<DnsResponseModel>,
)
    requires
        lookup_key_of(suffix, question.name) is Some,
        question.query_type == RecordType::Other,
    ensures
        reply_for(suffix, ttl, question, found).response_code == ResponseCode::NoError,
        reply_for(suffix, ttl, question, found).answers.len() == 0,
        reply_for(suffix, ttl, question, found).dropped == 0,
        reply_for(suffix, ttl, question, found).authoritative == (found is Some),
{
}

/// Stripping the suffix undoes appending it: a label that is not empty, with
/// the suffix behind it, is stripped to the label.
pub proof fn lemma_strip_inverts_append(label: Seq<char>, suffix: Seq<char>)
    requires
        label.len() > 0,
    ensures
        stripped(label + suffix, suffix) == Some(label),
{
    let domain = label + suffix;
    assert(domain.subrange(domain.len() - suffix.len(), domain.len() as int) =~= suffix);
    assert(domain.take(domain.len() - suffix.len()) =~= label);
}

/// Answers DNS questions from what a resolver knows.
pub struct CustomHandler<R> {
    resolver: R,
    suffix: String,
    ttl: u32,
}

impl<R> CustomHandler<R> {
    /// The suffix that the handler has authority over, empty for every name.
    pub closed spec fn suffix(&self) -> Seq<char> {
        self.suffix@
    }

    /// The time to live of every answer record, in seconds.
    pub closed spec fn ttl(&self) -> u32 {
        self.ttl
    }

    /// The resolver that the handler asks.
    pub closed spec fn resolver_state(&self) -> R {
        self.resolver
    }

    /// A handler that asks `resolver`, has authority over the names under
    /// `suffix` (over every name where it is empty), and gives each answer
    /// record the time to live `ttl`.
    pub fn new(resolver: R, suffix: String, ttl: u32) -> (handler: Self)
        ensures
            handler.suffix() == suffix@,
            handler.ttl() == ttl,
            handler.resolver_state() == resolver,
    {
        CustomHandler { resolver, suffix, ttl }
    }

    /// The resolver that the handler asks.
    pub fn resolver(&self) -> (resolver: &R)
        ensures
            *resolver == self.resolver_state(),
    {
        &self.resolver
    }

    /// The name without trailing dots and in lower case.
    pub fn normalize_domain(name: &str) -> (domain: String)
        ensures
            domain@ == normalize(name@),
    {
        normalize_name(name)
    }

    /// The name under the handler's suffix, none where the handler has no
    /// authority over the name.
    pub fn strip_suffix(&self, domain: &str) -> (name: Option<String>)
        ensures
            match name {
                Some(name) => stripped(domain@, self.suffix()) == Some(name@),
                None => stripped(domain@, self.suffix()) is None,
            },
    {
        if self.suffix.as_str().is_empty() {
            return Some(domain.to_owned());
        }
        match strip_suffix(domain, self.suffix.as_str()) {
            Some(rest) => {
                if rest.is_empty() {
                    None
                } else {
                    Some(rest.to_owned())
                }
            },
            None => None,
        }
    }

    /// The key that a query's name is looked up under, none where the query
    /// is refused.
    pub fn lookup_key(&self, query_name: &str) -> (key: Option<String>)
        ensures
            match key {
                Some(key) => lookup_key_of(self.suffix(), query_name@) == Some(key@),
                None => lookup_key_of(self.suffix(), query_name@) is None,
            },
    {
        let domain = Self::normalize_domain(query_name);
        self.strip_suffix(domain.as_str())
    }

    /// The records that fit into a response over UDP: the longest run of
    /// leading records whose estimated size is within the budget.
    pub fn apply_size_limit(records: Vec<Record>, query_name_len: usize) -> (limited: Vec<Record>)
        ensures
            limited@ == records@.take(limited.len() as int),
            limited.len() == fit_count(record_models(records@), available_space(query_name_len as nat)),
            limited.len() <= records.len(),
            total_size(record_models(limited@)) <= available_space(query_name_len as nat),
            limited.len() < records.len() ==> total_size(
                record_models(records@).take(limited.len() + 1),
            ) > available_space(query_name_len as nat),
    {
        let ghost models = record_models(records@);
        let space: usize = if query_name_len >= DNS_UDP_MAX_SIZE - DNS_OVERHEAD_ESTIMATE {
            0
        } else {
            DNS_UDP_MAX_SIZE - DNS_OVERHEAD_ESTIMATE - query_name_len
        };
        let mut current_size: usize = 0;
        let mut kept: usize = 0;
        let mut full = false;
        while kept < records.len() && !full
            invariant
                0 <= kept <= records.len(),
                full ==> kept < records.len() && total_size(models.take(kept + 1)) > space,
                models == record_models(records@),
                space == available_space(query_name_len as nat),
                space <= DNS_UDP_MAX_SIZE,
                current_size == total_size(models.take(kept as int)),
                current_size <= space,
            decreases records.len() - kept, if full { 0int } else { 1int },
        {
            let record_size: usize = match records[kept].data {
                RData::A(_) => A_RECORD_SIZE,
                RData::AAAA(_) => AAAA_RECORD_SIZE,
            };
            assert(models.take(kept + 1).drop_last() =~= models.take(kept as int));
            if current_size + record_size > space {
                full = true;
            } else {
                current_size += record_size;
                kept += 1;
            }
        }
        proof {
            lemma_fit_count(models, space as nat, kept as int);
        }
        let mut limited = records;
        limited.truncate(kept);
        assert(record_models(limited@) =~= models.take(kept as int));
        limited
    }

    /// The reply to a query that is refused.
    pub fn refuse() -> (reply: DnsReply)
        ensures
            reply@ == refused_reply(),
    {
        let reply = DnsReply {
            response_code: ResponseCode::Refused,
            authoritative: false,
            answers: Vec::new(),
            dropped: 0,
        };
        assert(reply@.answers =~= Seq::<RecordModel>::empty());
        reply
    }

    /// The records that answer the question from a response, before the size
    /// budget is applied.
    pub fn build_records(&self, question: &Question, response: &DnsResponse) -> (records: Vec<Record>)
        ensures
            record_models(records@) == records_for(question@, self.ttl(), response@),
    {
        let mut records: Vec<Record> = Vec::new();
        match question.query_type {
            RecordType::A => {
                let mut i: usize = 0;
                while i < response.ipv4_addresses.len()
                    invariant
                        0 <= i <= response.ipv4_addresses.len(),
                        question.query_type == RecordType::A,
                        records.len() == i,
                        forall|k: int|
                            0 <= k < i ==> (#[trigger] records@[k])@ == records_for(
                                question@,
                                self.ttl(),
                                response@,
                            )[k],
                    decreases response.ipv4_addresses.len() - i,
                {
                    let record = Record {
                        name: question.name.clone(),
                        ttl: self.ttl,
                        data: RData::A(response.ipv4_addresses[i]),
                    };
                    records.push(record);
                    i += 1;
                }
            },
            RecordType::AAAA => {
                let mut i: usize = 0;
                while i < response.ipv6_addresses.len()
                    invariant
                        0 <= i <= response.ipv6_addresses.len(),
                        question.query_type == RecordType::AAAA,
                        records.len() == i,
                        forall|k: int|
                            0 <= k < i ==> (#[trigger] records@[k])@ == records_for(
                                question@,
                                self.ttl(),
                                response@,
                            )[k],
                    decreases response.ipv6_addresses.len() - i,
                {
                    let record = Record {
                        name: question.name.clone(),
                        ttl: self.ttl,
                        data: RData::AAAA(response.ipv6_addresses[i]),
                    };
                    records.push(record);
                    i += 1;
                }
            },
            RecordType::Other => {},
        }
        records
    }

    /// The reply to a query whose name was accepted, for what the lookup of
    /// its key found.
    pub fn answer(&self, question: &Question, found: Option<Arc<DnsResponse>>) -> (reply: DnsReply)
        ensures
            reply@ == answered_reply(question@, self.ttl(), answer_of(found)),
            reply@.authoritative == (found is Some),
            found is Some ==> reply@.response_code == ResponseCode::NoError,
            found is None ==> reply@.response_code == not_found_code(question.query_type)
                && reply@.answers.len() == 0 && reply@.dropped == 0,
            question.query_type == RecordType::Other ==> reply@.response_code == ResponseCode::NoError
                && reply@.answers.len() == 0 && reply@.dropped == 0,
            total_size(reply@.answers) <= available_space(question.name_len as nat),
    {
        match found {
            Some(response) => {
                let records = self.build_records(question, &response);
                let total = records.len();
                let ghost all = record_models(records@);
                let answers = Self::apply_size_limit(records, question.name_len);
                assert(record_models(answers@) =~= all.take(answers.len() as int));
                DnsReply {
                    response_code: ResponseCode::NoError,
                    authoritative: true,
                    dropped: total - answers.len(),
                    answers,
                }
            },
            None => {
                let response_code = match question.query_type {
                    RecordType::Other => ResponseCode::NoError,
                    _ => ResponseCode::NXDomain,
                };
                let reply = DnsReply { response_code, authoritative: false, answers: Vec::new(), dropped: 0 };
                assert(reply@.answers =~= Seq::<RecordModel>::empty());
                reply
            },
        }
    }
}

impl<R: DnsResolver> CustomHandler<R> {
    /// Answers one query. A name outside the handler's suffix is refused
    /// without a lookup; any other name is looked up under its key, and the
    /// reply is made of what the resolver found.
    pub fn handle_query(&mut self, question: &Question) -> (reply: DnsReply)
        ensures
            final(self).suffix() == old(self).suffix(),
            final(self).ttl() == old(self).ttl(),
            match lookup_key_of(old(self).suffix(), question.name@) {
                Some(key) => exists|found: Option<DnsResponseModel>|
                    old(self).resolver_state().may_resolve(key, &final(self).resolver_state(), found)
                        && reply@ == #[trigger] answered_reply(question@, old(self).ttl(), found),
                None => reply@ == refused_reply() && final(self).resolver_state() == old(self).resolver_state(),
            },
            exists|found: Option<DnsResponseModel>|
                reply@ == #[trigger] reply_for(old(self).suffix(), old(self).ttl(), question@, found),
            !old(self).suffix().is_suffix_of(normalize(question.name@)) ==> reply@.response_code
                == ResponseCode::Refused && reply@.answers.len() == 0,
            lookup_key_of(old(self).suffix(), question.name@) is Some ==> reply@.response_code
                != ResponseCode::Refused,
            reply@.authoritative ==> reply@.response_code == ResponseCode::NoError,
            lookup_key_of(old(self).suffix(), question.name@) is Some && question.query_type
                == RecordType::Other ==> reply@.response_code == ResponseCode::NoError
                && reply@.answers.len() == 0 && reply@.dropped == 0,
            question.query_type == RecordType::Other ==> reply@.answers.len() == 0,
            total_size(reply@.answers) <= available_space(question.name_len as nat),
    {
        proof {
            if !self.suffix().is_suffix_of(normalize(question.name@)) {
                lemma_outside_suffix_refused(self.suffix(), self.ttl(), question@, None);
            }
        }
        match self.lookup_key(question.name.as_str()) {
            Some(container_name) => {
                let found = self.resolver.resolve(container_name.as_str());
                let ghost model = answer_of(found);
                let reply = self.answer(question, found);
                assert(reply@ == reply_for(old(self).suffix(), old(self).ttl(), question@, model));
                reply
            },
            None => {
                let reply = Self::refuse();
                assert(reply@ == reply_for(old(self).suffix(), old(self).ttl(), question@, None));
                reply
            },
        }
    }

    /// Handles one message: a query is answered, and a message that is itself
    /// a response is dropped without a reply.
    pub fn handle_request(&mut self, message_type: MessageType, question: &Question) -> (reply: Option<
        DnsReply,
    >)
        ensures
            final(self).suffix() == old(self).suffix(),
            final(self).ttl() == old(self).ttl(),
            message_type == MessageType::Response ==> reply is None && final(self).resolver_state()
                == old(self).resolver_state(),
            message_type == MessageType::Query ==> reply is Some && match lookup_key_of(
                old(self).suffix(),
                question.name@,
            ) {
                Some(key) => exists|found: Option<DnsResponseModel>|
                    old(self).resolver_state().may_resolve(key, &final(self).resolver_state(), found)
                        && reply->0@ == #[trigger] answered_reply(question@, old(self).ttl(), found),
                None => reply->0@ == refused_reply() && final(self).resolver_state() == old(self).resolver_state(),
            },
    {
        if message_type.expects_reply() {
            Some(self.handle_query(question))
        } else {
            None
        }
    }
}

} // verus!
