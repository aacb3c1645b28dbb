//! The sink: a JSON array of records that is written record by record and
//! read back when the run is complete.

use crate::error::Error;
use crate::models::vendor::{decoded_record, Record, Vendor};
use crate::text::lemma_encoding_has_no_line_feed;
use vstd::prelude::*;
use vstd::utf8::encode_utf8;

verus! {

/// The bytes that open the array: a bracket and a line feed.
pub open spec fn opening() -> Seq<u8> {
    seq![91u8, 10u8]
}

/// The bytes between two records: a comma and a line feed.
pub open spec fn separator() -> Seq<u8> {
    seq![44u8, 10u8]
}

/// The bytes that close the array: a line feed and a bracket.
pub open spec fn closing() -> Seq<u8> {
    seq![10u8, 93u8]
}

/// The records of a sink one after the other, with a separator between
/// each two.
pub open spec fn body_text(records: Seq<Seq<u8>>) -> Seq<u8>
    decreases records.len(),
{
    if records.len() == 0 {
        Seq::empty()
    } else if records.len() == 1 {
        records[0]
    } else {
        records[0] + separator() + body_text(records.drop_first())
    }
}

/// What the sink holds while it is open: the opening, then the records in
/// the order in which they came, with a separator between each two.
pub open spec fn open_text(records: Seq<Seq<u8>>) -> Seq<u8> {
    opening() + body_text(records)
}

/// What the sink holds once it is finished: one JSON array of the records.
pub open spec fn array_text(records: Seq<Seq<u8>>) -> Seq<u8> {
    open_text(records) + closing()
}

/// The words with which a closed sink refuses an operation.
pub open spec fn closed_words() -> Seq<char> {
    "the sink is closed"@
}

/// The words with which a sink refuses a record that it cannot count.
pub open spec fn full_words() -> Seq<char> {
    "the sink is full"@
}

/// What the sink adds for a record that comes after `earlier` others.
pub open spec fn record_chunk(earlier: nat, record: Seq<u8>) -> Seq<u8> {
    if earlier == 0 {
        record
    } else {
        separator() + record
    }
}

/// A record added at the end comes after a separator.
pub proof fn lemma_body_text_push(records: Seq<Seq<u8>>, record: Seq<u8>)
    requires
        records.len() > 0,
    ensures
        body_text(records.push(record)) == body_text(records) + separator() + record,
    decreases records.len(),
{
    let longer = records.push(record);
    if records.len() == 1 {
        assert(longer.drop_first() == seq![record]);
        assert(body_text(seq![record]) == record);
    } else {
        let rest = records.drop_first();
        lemma_body_text_push(rest, record);
        assert(longer.drop_first() == rest.push(record));
        assert(records[0] + separator() + (body_text(rest) + separator() + record) == records[0]
            + separator() + body_text(rest) + separator() + record);
    }
}

/// Appending a record lengthens what the sink holds by the record's chunk.
pub proof fn lemma_open_text_push(records: Seq<Seq<u8>>, record: Seq<u8>)
    ensures
        open_text(records.push(record)) == open_text(records) + record_chunk(
            records.len(),
            record,
        ),
{
    if records.len() > 0 {
        lemma_body_text_push(records, record);
        assert(opening() + (body_text(records) + separator() + record) == opening() + body_text(
            records,
        ) + (separator() + record));
    }
}

/// An append-only writer of records that keeps no record in memory.
///
/// The writer owns the framing of the sink and the count of its records.
/// Each operation hands back the bytes that are to be added to the sink;
/// they are durable once the caller has written and flushed them, which it
/// does before the next operation.
pub struct JsonWriter {
    count: usize,
    is_first: bool,
    finished: bool,
    written: Ghost<Seq<Seq<u8>>>,
}

impl JsonWriter {
    #[verifier::type_invariant]
    spec fn consistent(self) -> bool {
        &&& self.count == self.written@.len()
        &&& self.is_first == (self.count == 0)
    }

    /// The records that were appended, in their order.
    pub closed spec fn records(self) -> Seq<Seq<u8>> {
        self.written@
    }

    /// Whether the sink was closed.
    pub closed spec fn is_finished(self) -> bool {
        self.finished
    }

    /// Everything that the writer has handed out so far, end to end.
    pub open spec fn emitted(self) -> Seq<u8> {
        if self.is_finished() {
            array_text(self.records())
        } else {
            open_text(self.records())
        }
    }

    /// Opens a sink. The bytes handed back begin the array.
    pub fn new() -> (opened: (JsonWriter, Vec<u8>))
        ensures
            opened.0.records() == Seq::<Seq<u8>>::empty(),
            !opened.0.is_finished(),
            opened.1@ == opening(),
            opened.0.emitted() == opened.1@,
    {
        let mut chunk: Vec<u8> = Vec::new();
        chunk.push(91u8);
        chunk.push(10u8);
        (
            JsonWriter { count: 0, is_first: true, finished: false, written: Ghost(Seq::empty()) },
            chunk,
        )
    }

    /// Appends one record, given as its bytes, and hands back the bytes to
    /// add to the sink: the record, after a separator unless it is the
    /// first. A closed sink takes no record, nor does one that already holds
    /// as many as can be counted; it is then left as it was.
    pub fn append(&mut self, record: &[u8]) -> (chunk: Result<Vec<u8>, Error>)
        ensures
            chunk is Ok <==> !old(self).is_finished() && old(self).records().len() < usize::MAX,
            chunk matches Ok(bytes) ==> {
                &&& bytes@ == record_chunk(old(self).records().len(), record@)
                &&& final(self).records() == old(self).records().push(record@)
                &&& !final(self).is_finished()
                &&& final(self).emitted() == old(self).emitted() + bytes@
            },
            chunk matches Err(e) ==> {
                &&& e matches Error::Storage(reason)
                &&& reason@ == (if old(self).is_finished() {
                    closed_words()
                } else {
                    full_words()
                })
                &&& *final(self) == *old(self)
            },
    {
        proof {
            use_type_invariant(&*self);
        }
        if self.finished {
            return Err(Error::Storage(String::from_str("the sink is closed")));
        }
        if self.count == usize::MAX {
            return Err(Error::Storage(String::from_str("the sink is full")));
        }
        let mut bytes: Vec<u8> = Vec::new();
        if !self.is_first {
            bytes.push(44u8);
            bytes.push(10u8);
        }
        let ghost head = bytes@;
        assert(head == if self.count == 0 {
            Seq::<u8>::empty()
        } else {
            separator()
        });
        let mut i: usize = 0;
        while i < record.len()
            invariant
                i <= record@.len(),
                bytes@ == head + record@.take(i as int),
            decreases record@.len() - i,
        {
            bytes.push(record[i]);
            i += 1;
        }
        proof {
            lemma_open_text_push(self.written@, record@);
        }
        *self = JsonWriter {
            count: self.count + 1,
            is_first: false,
            finished: false,
            written: Ghost(self.written@.push(record@)),
        };
        Ok(bytes)
    }

    /// Appends the record of a vendor as its JSON object, which is a record
    /// that can be told apart from its neighbours in the sink.
    pub fn write_vendor(&mut self, vendor: &Vendor) -> (chunk: Result<Vec<u8>, Error>)
        ensures
            is_single_line(encode_utf8(vendor.json_text())),
            all_single_line(old(self).records()) ==> all_single_line(final(self).records()),
            chunk is Ok <==> !old(self).is_finished() && old(self).records().len() < usize::MAX,
            chunk matches Ok(bytes) ==> {
                &&& bytes@ == record_chunk(
                    old(self).records().len(),
                    encode_utf8(vendor.json_text()),
                )
                &&& final(self).records() == old(self).records().push(
                    encode_utf8(vendor.json_text()),
                )
                &&& !final(self).is_finished()
                &&& final(self).emitted() == old(self).emitted() + bytes@
            },
            chunk matches Err(e) ==> {
                &&& e matches Error::Storage(reason)
                &&& reason@ == (if old(self).is_finished() {
                    closed_words()
                } else {
                    full_words()
                })
                &&& *final(self) == *old(self)
            },
    {
        let text = vendor.to_json();
        proof {
            lemma_encoding_has_no_line_feed(text@);
        }
        let chunk = self.append(text.as_str().as_bytes());
        chunk
    }

    /// Closes the sink and hands back the bytes that end the array, with the
    /// number of records that the array holds. A sink is closed once: a
    /// second call fails and changes nothing.
    pub fn finish(&mut self) -> (closed: Result<(Vec<u8>, usize), Error>)
        ensures
            closed is Ok <==> !old(self).is_finished(),
            closed matches Ok((bytes, count)) ==> {
                &&& bytes@ == closing()
                &&& count == old(self).records().len()
                &&& final(self).records() == old(self).records()
                &&& final(self).is_finished()
                &&& final(self).emitted() == old(self).emitted() + bytes@
                &&& final(self).emitted() == array_text(old(self).records())
            },
            closed matches Err(e) ==> {
                &&& e matches Error::Storage(reason)
                &&& reason@ == closed_words()
                &&& *final(self) == *old(self)
            },
    {
        proof {
            use_type_invariant(&*self);
        }
        if self.finished {
            return Err(Error::Storage(String::from_str("the sink is closed")));
        }
        let mut bytes: Vec<u8> = Vec::new();
        bytes.push(10u8);
        bytes.push(93u8);
        self.finished = true;
        Ok((bytes, self.count))
    }

    /// The number of records appended so far.
    pub fn get_count(&self) -> (count: usize)
        ensures
            count == self.records().len(),
    {
        proof {
            use_type_invariant(self);
        }
        self.count
    }
}

/// A record that can be told apart from its neighbours in the sink: it is
/// not empty and holds no line feed.
pub open spec fn is_single_line(record: Seq<u8>) -> bool {
    &&& record.len() > 0
    &&& forall|j: int| 0 <= j < record.len() ==> #[trigger] record[j] != 10
}

/// Records that can be read back from a sink.
pub open spec fn all_single_line(records: Seq<Seq<u8>>) -> bool {
    forall|i: int| 0 <= i < records.len() ==> is_single_line(#[trigger] records[i])
}

/// The position of the first line feed in `s`, or the length of `s` where
/// it holds none.
pub open spec fn first_line_feed(s: Seq<u8>) -> int
    decreases s.len(),
{
    if s.len() == 0 {
        0
    } else if s[0] == 10 {
        0
    } else {
        1 + first_line_feed(s.drop_first())
    }
}

/// The records that a run of lines spells: every line but the last ends in
/// the comma of a separator, and every line holds a record.
pub open spec fn parsed_body(s: Seq<u8>) -> Option<Seq<Seq<u8>>>
    decreases s.len(),
{
    let i = first_line_feed(s);
    if i < 0 || i > s.len() {
        None
    } else if i == s.len() {
        if s.len() == 0 {
            None
        } else {
            Some(seq![s])
        }
    } else if i < 2 || s[i - 1] != 44 {
        None
    } else {
        match parsed_body(s.skip(i + 1)) {
            Some(rest) => Some(seq![s.take(i - 1)] + rest),
            None => None,
        }
    }
}

/// The records that the text of a finished sink spells, or nothing where
/// the text is not that of a sink.
pub open spec fn parsed_array(bytes: Seq<u8>) -> Option<Seq<Seq<u8>>> {
    let n = bytes.len() as int;
    if n < 4 || bytes[0] != 91 || bytes[1] != 10 || bytes[n - 2] != 10 || bytes[n - 1] != 93 {
        None
    } else if n == 4 {
        Some(Seq::empty())
    } else {
        parsed_body(bytes.subrange(2, n - 2))
    }
}

/// The first line feed of `s` stands at `k` where no byte before `k` is a
/// line feed and `k` is the end of `s` or the place of a line feed.
pub proof fn lemma_first_line_feed(s: Seq<u8>, k: int)
    requires
        0 <= k <= s.len(),
        forall|j: int| 0 <= j < k ==> #[trigger] s[j] != 10,
        k < s.len() ==> s[k] == 10,
    ensures
        first_line_feed(s) == k,
    decreases s.len(),
{
    if s.len() > 0 && k > 0 {
        let rest = s.drop_first();
        assert forall|j: int| 0 <= j < k - 1 implies #[trigger] rest[j] != 10 by {}
        lemma_first_line_feed(rest, k - 1);
    }
}

/// The lines of records that can be told apart spell these records.
pub proof fn lemma_body_round_trip(records: Seq<Seq<u8>>)
    requires
        records.len() > 0,
        all_single_line(records),
    ensures
        parsed_body(body_text(records)) == Some(records),
    decreases records.len(),
{
    let first = records[0];
    if records.len() == 1 {
        lemma_first_line_feed(first, first.len() as int);
    } else {
        let rest = records.drop_first();
        assert forall|i: int| 0 <= i < rest.len() implies is_single_line(#[trigger] rest[i]) by {}
        lemma_body_round_trip(rest);
        let s = body_text(records);
        let k = first.len() as int + 1;
        assert forall|j: int| 0 <= j < k implies #[trigger] s[j] != 10 by {}
        lemma_first_line_feed(s, k);
        assert(s.take(k - 1) == first);
        assert(s.skip(k + 1) == body_text(rest));
    }
}

/// Round trip. Records that can be told apart are read back from the text
/// of the finished sink as they were written, in the same order.
pub proof fn lemma_sink_round_trip(records: Seq<Seq<u8>>)
    requires
        all_single_line(records),
    ensures
        parsed_array(array_text(records)) == Some(records),
{
    let text = array_text(records);
    let body = body_text(records);
    let n = text.len() as int;
    if records.len() > 0 {
        lemma_body_round_trip(records);
        assert(body.len() > 0);
        assert(text.subrange(2, n - 2) == body);
    }
}

/// What a finished sink holds is read back as the records that were
/// appended to it, as long as these can be told apart.
pub proof fn lemma_finished_sink_reads_back(sink: JsonWriter)
    requires
        sink.is_finished(),
        all_single_line(sink.records()),
    ensures
        parsed_array(sink.emitted()) == Some(sink.records()),
{
    lemma_sink_round_trip(sink.records());
}

fn copy_range(bytes: &[u8], from: usize, to: usize) -> (copy: Vec<u8>)
    requires
        from <= to <= bytes@.len(),
    ensures
        copy@ == bytes@.subrange(from as int, to as int),
{
    let mut copy: Vec<u8> = Vec::new();
    let mut i: usize = from;
    while i < to
        invariant
            from <= i <= to <= bytes@.len(),
            copy@ == bytes@.subrange(from as int, i as int),
        decreases to - i,
    {
        copy.push(bytes[i]);
        assert(bytes@.subrange(from as int, i + 1) == bytes@.subrange(from as int, i as int).push(
            bytes@[i as int],
        ));
        i += 1;
    }
    copy
}

/// Reads the records back from the text of a finished sink. A text that is
/// not that of a sink is reported as a JSON error.
pub fn read_records(bytes: &[u8]) -> (records: Result<Vec<Vec<u8>>, Error>)
    ensures
        records is Ok <==> parsed_array(bytes@) is Some,
        records matches Ok(found) ==> parsed_array(bytes@) == Some(
            Seq::new(found@.len(), |i: int| found@[i]@),
        ),
        records matches Err(e) ==> e is Json,
{
    let n: usize = bytes.len();
    if n < 4 || bytes[0] != 91u8 || bytes[1] != 10u8 || bytes[n - 2] != 10u8 || bytes[n - 1]
        != 93u8 {
        return Err(Error::Json(String::from_str("not an array of records")));
    }
    let mut found: Vec<Vec<u8>> = Vec::new();
    if n == 4 {
        return Ok(found);
    }
    let end: usize = n - 2;
    let ghost body = bytes@.subrange(2, end as int);
    let mut start: usize = 2;
    let mut i: usize = 2;
    assert(body.skip(0) == body);
    while i < end
        invariant
            2 <= start <= i <= end,
            end == n - 2,
            n == bytes@.len(),
            body == bytes@.subrange(2, end as int),
            forall|j: int| start <= j < i ==> #[trigger] bytes@[j] != 10,
            parsed_body(body) == (match parsed_body(body.skip(start - 2)) {
                Some(rest) => Some(Seq::new(found@.len(), |k: int| found@[k]@) + rest),
                None => None,
            }),
        decreases end - i,
    {
        if bytes[i] == 10u8 {
            let ghost line = body.skip(start - 2);
            let ghost k = i - start;
            proof {
                assert forall|j: int| 0 <= j < k implies #[trigger] line[j] != 10 by {}
                lemma_first_line_feed(line, k);
            }
            if i - start < 2 || bytes[i - 1] != 44u8 {
                return Err(Error::Json(String::from_str("a record is not followed by a comma")));
            }
            let record = copy_range(bytes, start, i - 1);
            assert(line.take(k - 1) == record@);
            assert(line.skip(k + 1) == body.skip(i + 1 - 2));
            found.push(record);
            start = i + 1;
        }
        i += 1;
    }
    let ghost line = body.skip(start - 2);
    proof {
        assert forall|j: int| 0 <= j < line.len() implies #[trigger] line[j] != 10 by {}
        lemma_first_line_feed(line, line.len() as int);
    }
    if start == end {
        return Err(Error::Json(String::from_str("the last record is missing")));
    }
    let record = copy_range(bytes, start, end);
    assert(line == record@);
    found.push(record);
    Ok(found)
}

/// The records that a list of sink entries spells, where each spells one.
pub open spec fn decoded_records(entries: Seq<Seq<u8>>) -> Option<Seq<Record>> {
    if forall|i: int| 0 <= i < entries.len() ==> decoded_record(#[trigger] entries[i]) is Some {
        Some(Seq::new(entries.len(), |i: int| decoded_record(entries[i]).unwrap()))
    } else {
        None
    }
}

/// The records that the text of a finished sink holds.
pub open spec fn decoded_sink(bytes: Seq<u8>) -> Option<Seq<Record>> {
    match parsed_array(bytes) {
        Some(entries) => decoded_records(entries),
        None => None,
    }
}

/// What a list of records says, record by record.
pub open spec fn records_of(vendors: Seq<Vendor>) -> Seq<Record> {
    Seq::new(vendors.len(), |i: int| vendors[i].record())
}

/// Reads the records of a finished sink, in the order in which they were
/// written. A text that is not that of a sink, or an entry that spells no
/// record, is reported as a JSON error.
#[verifier::loop_isolation(false)]
pub fn read_vendors(bytes: &[u8]) -> (vendors: Result<Vec<Vendor>, Error>)
    ensures
        vendors is Ok <==> decoded_sink(bytes@) is Some,
        vendors matches Ok(found) ==> decoded_sink(bytes@) == Some(records_of(found@)),
        vendors matches Err(e) ==> e is Json,
{
    let entries = match read_records(bytes) {
        Ok(entries) => entries,
        Err(e) => {
            return Err(e);
        },
    };
    let ghost texts = Seq::new(entries@.len(), |i: int| entries@[i]@);
    let mut found: Vec<Vendor> = Vec::new();
    let mut i: usize = 0;
    while i < entries.len()
        invariant
            i <= entries@.len(),
            found@.len() == i,
            forall|j: int| 0 <= j < i ==> decoded_record(#[trigger] texts[j]) == Some(
                found@[j].record(),
            ),
        decreases entries@.len() - i,
    {
        match Vendor::decode(entries[i].as_slice()) {
            Ok(vendor) => found.push(vendor),
            Err(e) => {
                assert(decoded_record(texts[i as int]) is None);
                return Err(e);
            },
        }
        i += 1;
    }
    assert(decoded_records(texts) == Some(records_of(found@)));
    Ok(found)
}

} // verus!
