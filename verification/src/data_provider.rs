//! Training data: tokenized sequences, and where they come from.

use vstd::prelude::*;
use vstd::string::StringExecFns;

use crate::batch_map::BatchId;
use crate::text::{decimal, decimal_text};

verus! {

/// How tokens are stored.
#[derive(Debug, Clone, Copy, PartialEq, Eq, Structural)]
pub enum TokenSize {
    TwoBytes,
    FourBytes,
}

/// The bytes that a token takes.
pub open spec fn token_bytes(size: TokenSize) -> nat {
    match size {
        TokenSize::TwoBytes => 2,
        TokenSize::FourBytes => 4,
    }
}

/// A tokenized sequence.
#[derive(Debug, Clone, PartialEq)]
pub struct TokenizedData {
    pub input_ids: Vec<i32>,
    pub labels: Option<Vec<i32>>,
    pub position_ids: Option<Vec<i32>>,
    pub sequence_lengths: Option<Vec<i32>>,
}

impl TokenizedData {
    /// A sequence of tokens and nothing else.
    pub fn from_input_ids(input_ids: Vec<i32>) -> (r: Self)
        ensures
            r == (TokenizedData {
                input_ids,
                labels: None,
                position_ids: None,
                sequence_lengths: None,
            }),
    {
        TokenizedData { input_ids, labels: None, position_ids: None, sequence_lengths: None }
    }

    /// A sequence with all that may go with it.
    pub fn new(
        input_ids: Vec<i32>,
        labels: Option<Vec<i32>>,
        position_ids: Option<Vec<i32>>,
        sequence_lengths: Option<Vec<i32>>,
    ) -> (r: Self)
        ensures
            r == (TokenizedData { input_ids, labels, position_ids, sequence_lengths }),
    {
        TokenizedData { input_ids, labels, position_ids, sequence_lengths }
    }

    /// A sequence without tokens.
    pub fn empty() -> (r: Self)
        ensures
            r.input_ids@ == Seq::<i32>::empty(),
            r.labels is None,
            r.position_ids is None,
            r.sequence_lengths is None,
    {
        TokenizedData {
            input_ids: Vec::new(),
            labels: None,
            position_ids: None,
            sequence_lengths: None,
        }
    }

    /// The sequence is `n` zeros and nothing else.
    pub open spec fn is_zeros(self, n: nat) -> bool {
        &&& self.input_ids@ == Seq::new(n, |i: int| 0i32)
        &&& self.labels is None
        &&& self.position_ids is None
        &&& self.sequence_lengths is None
    }
}

/// Why data cannot be had.
#[derive(Debug, Clone, Copy, PartialEq, Eq, Structural)]
pub enum DataError {
    /// A sequence was asked for that is not there.
    NoSuchSequence { id: u64, num_sequences: u64 },
    /// The bytes do not divide into tokens.
    Misaligned { len: usize, token_len: usize },
}

impl DataError {
    /// The reason in words.
    pub fn message(&self) -> (r: String)
        ensures
            r@ == (match *self {
                DataError::NoSuchSequence { id, num_sequences } => "id "@ + decimal(id as nat)
                    + " > self.num_sequences "@ + decimal(num_sequences as nat),
                DataError::Misaligned { len, token_len } => "token data length "@ + decimal(
                    len as nat,
                ) + " is not divisible by token size "@ + decimal(token_len as nat),
            }),
    {
        match self {
            DataError::NoSuchSequence { id, num_sequences } => {
                let mut out = "id ".to_string();
                out.append(decimal_text(*id).as_str());
                out.append(" > self.num_sequences ");
                out.append(decimal_text(*num_sequences).as_str());
                out
            },
            DataError::Misaligned { len, token_len } => {
                let mut out = "token data length ".to_string();
                out.append(decimal_text(*len as u64).as_str());
                out.append(" is not divisible by token size ");
                out.append(decimal_text(*token_len as u64).as_str());
                out
            },
        }
    }
}

/// A source of tokenized sequences.
pub trait TokenizedDataProvider: Sized {
    /// The batch is one that may be asked for.
    spec fn accepts(&self, ids: BatchId) -> bool;

    /// `answer` is what the provider `before` may give for a batch, and `after` what it then is.
    spec fn answers(
        before: Self,
        after: Self,
        ids: BatchId,
        answer: Result<Vec<TokenizedData>, DataError>,
    ) -> bool;

    /// The sequences of a batch.
    fn get_samples(&mut self, ids: BatchId) -> (r: Result<Vec<TokenizedData>, DataError>)
        requires
            old(self).accepts(ids),
        ensures
            Self::answers(*old(self), *final(self), ids, r),
    ;
}

/// A provider that knows how many sequences it has.
pub trait LengthKnownDataProvider {
    /// The number of sequences.
    spec fn sequences(&self) -> usize;

    /// The number of sequences.
    fn num_sequences(&self) -> (r: usize)
        ensures
            r == self.sequences(),
    ;

    /// Whether there is no sequence.
    fn is_empty(&self) -> (r: bool)
        ensures
            r == (self.sequences() == 0),
    {
        self.num_sequences() == 0
    }
}

/// A provider of zeros, for runs that need no data.
#[derive(Debug)]
pub struct DummyDataProvider {
    seq_len: usize,
    num_sequences: u64,
}

impl DummyDataProvider {
    /// The number of tokens in a sequence.
    pub closed spec fn seq_len(&self) -> usize {
        self.seq_len
    }

    /// The last sequence that may be asked for.
    pub closed spec fn limit(&self) -> u64 {
        self.num_sequences
    }

    /// A provider of sequences of `num_tokens_per_sequence` zeros. How tokens are stored is of no
    /// consequence.
    pub fn new(
        _token_size_in_bytes: TokenSize,
        num_tokens_per_sequence: usize,
        num_sequences: u64,
    ) -> (r: Self)
        ensures
            r.seq_len() == num_tokens_per_sequence,
            r.limit() == num_sequences,
    {
        DummyDataProvider { seq_len: num_tokens_per_sequence, num_sequences }
    }

    /// `num_samples` sequences.
    pub fn internal_get_samples(&self, num_samples: usize) -> (r: Vec<TokenizedData>)
        ensures
            r@.len() == num_samples,
            forall|i: int| 0 <= i < r@.len() ==> (#[trigger] r@[i]).is_zeros(self.seq_len() as nat),
    {
        let mut out: Vec<TokenizedData> = Vec::new();
        let mut i: usize = 0;
        while i < num_samples
            invariant
                i <= num_samples,
                out@.len() == i,
                forall|k: int|
                    0 <= k < out@.len() ==> (#[trigger] out@[k]).is_zeros(self.seq_len() as nat),
            decreases num_samples - i,
        {
            let zeros: Vec<i32> = vec![0; self.seq_len];
            assert(zeros@ =~= Seq::new(self.seq_len as nat, |i: int| 0i32));
            out.push(TokenizedData::from_input_ids(zeros));
            i = i + 1;
        }
        out
    }
}

/// What zeros answer for a batch: a sequence for each number in it, unless one is too large; then
/// the first that is.
pub open spec fn zeros_for(
    p: DummyDataProvider,
    ids: BatchId,
    answer: Result<Vec<TokenizedData>, DataError>,
) -> bool {
    if ids.1 > p.limit() {
        answer == Err::<Vec<TokenizedData>, DataError>(
            DataError::NoSuchSequence {
                id: if ids.0 > p.limit() {
                    ids.0
                } else {
                    (p.limit() + 1) as u64
                },
                num_sequences: p.limit(),
            },
        )
    } else {
        &&& answer matches Ok(samples)
        &&& samples@.len() == ids.1 - ids.0 + 1
        &&& forall|i: int|
            0 <= i < samples@.len() ==> (#[trigger] samples@[i]).is_zeros(p.seq_len() as nat)
    }
}

impl TokenizedDataProvider for DummyDataProvider {
    /// The batch is not empty, and as many sequences can be held.
    open spec fn accepts(&self, ids: BatchId) -> bool {
        &&& ids.0 <= ids.1
        &&& ids.1 <= self.limit() ==> ids.1 - ids.0 + 1 <= usize::MAX
    }

    open spec fn answers(
        before: Self,
        after: Self,
        ids: BatchId,
        answer: Result<Vec<TokenizedData>, DataError>,
    ) -> bool {
        after == before && zeros_for(before, ids, answer)
    }

    fn get_samples(&mut self, ids: BatchId) -> (r: Result<Vec<TokenizedData>, DataError>) {
        if ids.1 > self.num_sequences {
            let id: u64 = if ids.0 > self.num_sequences {
                ids.0
            } else {
                self.num_sequences + 1
            };
            return Err(DataError::NoSuchSequence { id, num_sequences: self.num_sequences });
        }
        let span: u64 = ids.1 - ids.0;
        Ok(self.internal_get_samples(span as usize + 1))
    }
}

impl LengthKnownDataProvider for DummyDataProvider {
    open spec fn sequences(&self) -> usize {
        self.limit() as usize
    }

    fn num_sequences(&self) -> (r: usize) {
        self.num_sequences as usize
    }
}

/// A provider of any kind. All but the zeros are given by the caller.
#[derive(Debug)]
pub enum DataProvider<H, S, W, L, P> {
    Http(H),
    Server(S),
    Dummy(DummyDataProvider),
    WeightedHttp(W),
    Local(L),
    Preprocessed(P),
}

impl<
    H: TokenizedDataProvider,
    S: TokenizedDataProvider,
    W: TokenizedDataProvider,
    L: TokenizedDataProvider,
    P: TokenizedDataProvider,
> TokenizedDataProvider for DataProvider<H, S, W, L, P> {
    /// The provider inside accepts the batch.
    open spec fn accepts(&self, ids: BatchId) -> bool {
        match self {
            DataProvider::Http(p) => p.accepts(ids),
            DataProvider::Server(p) => p.accepts(ids),
            DataProvider::Dummy(p) => p.accepts(ids),
            DataProvider::WeightedHttp(p) => p.accepts(ids),
            DataProvider::Local(p) => p.accepts(ids),
            DataProvider::Preprocessed(p) => p.accepts(ids),
        }
    }

    /// The answer is that of the provider inside, which stays of its kind.
    open spec fn answers(
        before: Self,
        after: Self,
        ids: BatchId,
        answer: Result<Vec<TokenizedData>, DataError>,
    ) -> bool {
        match (before, after) {
            (DataProvider::Http(b), DataProvider::Http(a)) => H::answers(b, a, ids, answer),
            (DataProvider::Server(b), DataProvider::Server(a)) => S::answers(b, a, ids, answer),
            (DataProvider::Dummy(b), DataProvider::Dummy(a)) => DummyDataProvider::answers(
                b,
                a,
                ids,
                answer,
            ),
            (DataProvider::WeightedHttp(b), DataProvider::WeightedHttp(a)) => W::answers(
                b,
                a,
                ids,
                answer,
            ),
            (DataProvider::Local(b), DataProvider::Local(a)) => L::answers(b, a, ids, answer),
            (DataProvider::Preprocessed(b), DataProvider::Preprocessed(a)) => P::answers(
                b,
                a,
                ids,
                answer,
            ),
            _ => false,
        }
    }

    fn get_samples(&mut self, ids: BatchId) -> (r: Result<Vec<TokenizedData>, DataError>) {
        match self {
            DataProvider::Http(provider) => provider.get_samples(ids),
            DataProvider::Server(provider) => provider.get_samples(ids),
            DataProvider::Dummy(provider) => provider.get_samples(ids),
            DataProvider::WeightedHttp(provider) => provider.get_samples(ids),
            DataProvider::Local(provider) => provider.get_samples(ids),
            DataProvider::Preprocessed(provider) => provider.get_samples(ids),
        }
    }
}

/// The number that two bytes stand for, the lesser first.
pub open spec fn le16(b0: u8, b1: u8) -> int {
    b0 + 256 * b1
}

/// A number of 32 bits read as a signed one.
pub open spec fn as_signed(v: int) -> int {
    if v < 0x8000_0000 {
        v
    } else {
        v - 0x1_0000_0000
    }
}

/// Token `i` of `data`.
pub open spec fn token_at(data: Seq<u8>, size: TokenSize, i: int) -> int {
    match size {
        TokenSize::TwoBytes => le16(data[2 * i], data[2 * i + 1]),
        TokenSize::FourBytes => as_signed(
            le16(data[4 * i], data[4 * i + 1]) + 0x1_0000 * le16(data[4 * i + 2], data[4 * i + 3]),
        ),
    }
}

/// The tokens that `data` holds, each with its lesser bytes first.
pub fn bytes_to_tokens(data: &Vec<u8>, token_size: TokenSize) -> (r: Result<Vec<i32>, DataError>)
    ensures
        match r {
            Ok(tokens) => {
                &&& data@.len() % token_bytes(token_size) == 0
                &&& tokens@.len() == data@.len() / token_bytes(token_size)
                &&& forall|i: int|
                    0 <= i < tokens@.len() ==> #[trigger] tokens@[i] == token_at(
                        data@,
                        token_size,
                        i,
                    )
            },
            Err(e) => {
                &&& data@.len() % token_bytes(token_size) != 0
                &&& e == (DataError::Misaligned {
                    len: data@.len() as usize,
                    token_len: token_bytes(token_size) as usize,
                })
            },
        },
{
    let token_len: usize = match token_size {
        TokenSize::TwoBytes => 2,
        TokenSize::FourBytes => 4,
    };
    if data.len() % token_len != 0 {
        return Err(DataError::Misaligned { len: data.len(), token_len });
    }
    let n: usize = data.len() / token_len;
    let mut out: Vec<i32> = Vec::new();
    let mut i: usize = 0;
    while i < n
        invariant
            i <= n,
            token_size is TwoBytes ==> 2 * n == data@.len(),
            token_size is FourBytes ==> 4 * n == data@.len(),
            data@.len() <= usize::MAX,
            out@.len() == i,
            forall|k: int| 0 <= k < i ==> #[trigger] out@[k] == token_at(data@, token_size, k),
        decreases n - i,
    {
        match token_size {
            TokenSize::TwoBytes => {
                let v: u32 = data[2 * i] as u32 + 256 * (data[2 * i + 1] as u32);
                out.push(v as i32);
            },
            TokenSize::FourBytes => {
                let low: u32 = data[4 * i] as u32 + 256 * (data[4 * i + 1] as u32);
                let high: u32 = data[4 * i + 2] as u32 + 256 * (data[4 * i + 3] as u32);
                let v: u32 = low + 0x1_0000 * high;
                proof {
                    assert(v < 0x8000_0000 ==> v as i32 == v) by (bit_vector);
                    assert(v >= 0x8000_0000 ==> v as i32 == v - 0x1_0000_0000) by (bit_vector);
                }
                out.push(v as i32);
            },
        }
        i = i + 1;
    }
    Ok(out)
}

/// Tokens of two bytes are never negative and below 65536.
pub proof fn law_short_tokens_are_unsigned(data: Seq<u8>, i: int)
    ensures
        0 <= token_at(data, TokenSize::TwoBytes, i) < 0x1_0000,
{
}

/// Tokens of four bytes are read as they are written: the bytes of a number, the least first, stand for
/// it, whether it is negative or not.
pub proof fn law_long_tokens_are_read_back(data: Seq<u8>, i: int, v: i32)
    requires
        0 <= i,
        4 * i + 3 < data.len(),
        (v as int) % 0x1_0000_0000 == data[4 * i] + 0x100 * data[4 * i + 1] + 0x1_0000 * data[4 * i + 2]
            + 0x100_0000 * data[4 * i + 3],
    ensures
        token_at(data, TokenSize::FourBytes, i) == v,
{
}

/// Tokens of two bytes are read as they are written, the lesser byte first.
pub proof fn law_short_tokens_are_read_back(data: Seq<u8>, i: int, v: u16)
    requires
        0 <= i,
        2 * i + 1 < data.len(),
        data[2 * i] == v % 256,
        data[2 * i + 1] == v / 256,
    ensures
        token_at(data, TokenSize::TwoBytes, i) == v,
{
}

/// Zeros are given for a batch exactly where none of its numbers is too large: one sequence for each,
/// of the length that is asked for. Else the first number that is too large is named.
pub proof fn law_zeros_are_given_for_each_number(
    p: DummyDataProvider,
    ids: BatchId,
    answer: Result<Vec<TokenizedData>, DataError>,
    i: int,
)
    requires
        p.accepts(ids),
        zeros_for(p, ids, answer),
    ensures
        answer is Ok <==> ids.1 <= p.limit(),
        answer matches Ok(samples) ==> {
            &&& samples@.len() == ids.1 - ids.0 + 1
            &&& 0 <= i < samples@.len() ==> {
                &&& samples@[i].input_ids@.len() == p.seq_len()
                &&& forall|k: int|
                    0 <= k < p.seq_len() ==> #[trigger] samples@[i].input_ids@[k] == 0
                &&& samples@[i].labels is None
            }
        },
        answer matches Err(e) ==> {
            &&& e matches DataError::NoSuchSequence { id, num_sequences }
            &&& num_sequences == p.limit()
            &&& ids.0 <= id <= ids.1
            &&& id > p.limit()
            &&& id == ids.0 || id - 1 <= p.limit()
        },
{
}

/// A token of two bytes takes two bytes, and one of four takes four: where tokens are read, the last one
/// ends where the bytes end.
pub proof fn law_tokens_take_their_bytes(n: nat)
    ensures
        n * token_bytes(TokenSize::TwoBytes) == n + n,
        n * token_bytes(TokenSize::FourBytes) == n + n + n + n,
{
    assert(n * 2 == n + n && n * 4 == n + n + n + n) by (nonlinear_arith);
}

/// Zeros are asked for by numbers that do not descend, of which there are no more than can be counted;
/// and giving them changes nothing.
pub proof fn law_giving_zeros_changes_nothing(
    before: DummyDataProvider,
    after: DummyDataProvider,
    ids: BatchId,
    answer: Result<Vec<TokenizedData>, DataError>,
)
    ensures
        DummyDataProvider::answers(before, after, ids, answer) <==> after == before && zeros_for(
            before,
            ids,
            answer,
        ),
        before.accepts(ids) <==> ids.0 <= ids.1 && (ids.1 > before.limit() || ids.1 - ids.0
            < usize::MAX),
        before.sequences() == before.limit() as usize,
{
}

/// A provider of zeros among others answers as it does alone.
pub proof fn law_zeros_are_given_among_others<
    H: TokenizedDataProvider,
    S: TokenizedDataProvider,
    W: TokenizedDataProvider,
    L: TokenizedDataProvider,
    P: TokenizedDataProvider,
>(
    before: DummyDataProvider,
    after: DataProvider<H, S, W, L, P>,
    ids: BatchId,
    answer: Result<Vec<TokenizedData>, DataError>,
)
    ensures
        DataProvider::<H, S, W, L, P>::Dummy(before).accepts(ids) <==> before.accepts(ids),
        DataProvider::<H, S, W, L, P>::answers(DataProvider::Dummy(before), after, ids, answer) <==> {
            &&& after matches DataProvider::Dummy(a)
            &&& DummyDataProvider::answers(before, a, ids, answer)
        },
{
}

/// A provider that asks a server, reads files or asks over the network answers as the one inside does,
/// and stays of its kind.
pub proof fn law_providers_answer_as_the_one_inside<
    H: TokenizedDataProvider,
    S: TokenizedDataProvider,
    W: TokenizedDataProvider,
    L: TokenizedDataProvider,
    P: TokenizedDataProvider,
>(
    before: DataProvider<H, S, W, L, P>,
    after: DataProvider<H, S, W, L, P>,
    ids: BatchId,
    answer: Result<Vec<TokenizedData>, DataError>,
)
    requires
        DataProvider::<H, S, W, L, P>::answers(before, after, ids, answer),
    ensures
        before matches DataProvider::Http(b) ==> after is Http && H::answers(
            b,
            after->Http_0,
            ids,
            answer,
        ) && before.accepts(ids) == b.accepts(ids),
        before matches DataProvider::Server(b) ==> after is Server && S::answers(
            b,
            after->Server_0,
            ids,
            answer,
        ) && before.accepts(ids) == b.accepts(ids),
        before matches DataProvider::WeightedHttp(b) ==> after is WeightedHttp && W::answers(
            b,
            after->WeightedHttp_0,
            ids,
            answer,
        ) && before.accepts(ids) == b.accepts(ids),
        before matches DataProvider::Local(b) ==> after is Local && L::answers(
            b,
            after->Local_0,
            ids,
            answer,
        ) && before.accepts(ids) == b.accepts(ids),
        before matches DataProvider::Preprocessed(b) ==> after is Preprocessed && P::answers(
            b,
            after->Preprocessed_0,
            ids,
            answer,
        ) && before.accepts(ids) == b.accepts(ids),
{
}

} // verus!
