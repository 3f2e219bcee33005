//! Decoding of the DNS echo answer that discovers the public address.
//!
//! The echo lookup sends one text-record query to a fixed resolver, which
//! answers with the querying client's own address.  The surrounding binary
//! performs the query and hands the answer section over as plain values;
//! this module holds the decoding: the address is the concatenation, in
//! order, of the text fragments of the first answer record.  An answer
//! section without a usable text record is an error, never an empty
//! address.

use vstd::prelude::*;
use vstd::string::StringExecFns;
use vstd::utf8::{decode_utf8, valid_utf8};

use crate::outcome::DiscoveryError;

verus! {

/// One answer record of the echo reply, reduced to what the decoder reads:
/// the byte fragments of a text record, in wire order, or the fact that
/// the record was of another type.
#[derive(Clone, Debug, PartialEq, Eq)]
pub enum DnsAnswer {
    /// A text record with its character-string fragments.
    Txt(Vec<Vec<u8>>),
    /// An answer of any other record type.
    Other,
}

/// Whether every fragment is valid UTF-8.
pub open spec fn fragments_valid(frags: Seq<Vec<u8>>) -> bool {
    forall|i: int| 0 <= i < frags.len() ==> valid_utf8(#[trigger] frags[i]@)
}

/// The decoding of the fragments, concatenated in order.
pub open spec fn joined_fragments(frags: Seq<Vec<u8>>) -> Seq<char>
    decreases frags.len(),
{
    if frags.len() == 0 {
        Seq::empty()
    } else {
        decode_utf8(frags[0]@) + joined_fragments(frags.drop_first())
    }
}

/// What an answer section decodes to: the concatenated fragments of the
/// first answer record when it is a text record and every fragment is
/// valid UTF-8; `NoAnswer` when there is no answer or the first one is of
/// another type; `MalformedAnswer` when a fragment is not valid UTF-8.
pub open spec fn discovery_decode(answers: Seq<DnsAnswer>) -> Result<Seq<char>, DiscoveryError> {
    if answers.len() == 0 {
        Err(DiscoveryError::NoAnswer)
    } else {
        match answers[0] {
            DnsAnswer::Txt(frags) => if fragments_valid(frags@) {
                Ok(joined_fragments(frags@))
            } else {
                Err(DiscoveryError::MalformedAnswer)
            },
            DnsAnswer::Other => Err(DiscoveryError::NoAnswer),
        }
    }
}

/// Relies on `str::from_utf8`: it returns the string slice decoded from
/// the bytes exactly when they are valid UTF-8, and an error otherwise.
#[verifier::external_body]
fn utf8_to_str(bytes: &[u8]) -> (r: Option<&str>)
    ensures
        r is Some <==> valid_utf8(bytes@),
        r matches Some(s) ==> s@ == decode_utf8(bytes@),
{
    std::str::from_utf8(bytes).ok()
}

/// Appending one more fragment extends the joined decoding by that
/// fragment's decoding.
proof fn lemma_joined_fragments_take(frags: Seq<Vec<u8>>, i: int)
    requires
        0 <= i < frags.len(),
    ensures
        joined_fragments(frags.take(i + 1)) == joined_fragments(frags.take(i)) + decode_utf8(
            frags[i]@,
        ),
    decreases i,
{
    if i == 0 {
        assert(frags.take(1).drop_first() =~= Seq::<Vec<u8>>::empty());
        assert(frags.take(0) =~= Seq::<Vec<u8>>::empty());
        assert(decode_utf8(frags[0]@) + Seq::<char>::empty() =~= decode_utf8(frags[0]@));
        assert(Seq::<char>::empty() + decode_utf8(frags[0]@) =~= decode_utf8(frags[0]@));
    } else {
        let rest = frags.drop_first();
        lemma_joined_fragments_take(rest, i - 1);
        assert(frags.take(i + 1).drop_first() =~= rest.take(i));
        assert(frags.take(i).drop_first() =~= rest.take(i - 1));
        assert(frags.take(i + 1)[0] == frags[0]);
        assert(frags.take(i)[0] == frags[0]);
        assert((decode_utf8(frags[0]@) + joined_fragments(rest.take(i - 1))) + decode_utf8(
            frags[i]@,
        ) =~= decode_utf8(frags[0]@) + (joined_fragments(rest.take(i - 1)) + decode_utf8(
            frags[i]@,
        )));
    }
}

/// Decode the answer section of the echo reply into the discovered
/// address.
#[verifier::loop_isolation(false)]
pub fn decode_answers(answers: Vec<DnsAnswer>) -> (r: Result<String, DiscoveryError>)
    ensures
        (r is Ok) == (discovery_decode(answers@) is Ok),
        r matches Ok(s) ==> s@ == discovery_decode(answers@)->Ok_0,
        r matches Err(e) ==> discovery_decode(answers@) == Err::<Seq<char>, DiscoveryError>(e),
{
    if answers.len() == 0 {
        return Err(DiscoveryError::NoAnswer);
    }
    match &answers[0] {
        DnsAnswer::Other => Err(DiscoveryError::NoAnswer),
        DnsAnswer::Txt(frags) => {
            let ghost gfrags = frags@;
            let mut joined = String::new();
            let n: usize = frags.len();
            let mut i: usize = 0;
            while i < n
                invariant
                    n == gfrags.len(),
                    i <= n,
                    frags@ == gfrags,
                    fragments_valid(gfrags.take(i as int)),
                    joined@ == joined_fragments(gfrags.take(i as int)),
                decreases n - i,
            {
                match utf8_to_str(frags[i].as_slice()) {
                    None => {
                        return Err(DiscoveryError::MalformedAnswer);
                    },
                    Some(piece) => {
                        joined.append(piece);
                        proof {
                            lemma_joined_fragments_take(gfrags, i as int);
                            assert(forall|j: int|
                                0 <= j < i + 1 ==> valid_utf8(
                                    #[trigger] gfrags.take(i + 1)[j]@,
                                ));
                        }
                        i = i + 1;
                    },
                }
            }
            proof {
                assert(gfrags.take(n as int) =~= gfrags);
            }
            Ok(joined)
        },
    }
}

} // verus!
