//! What the contract remembers.
use crate::error::{std_result, Record, PlatformError, PlatformErrorView};
use crate::expiration::Duration;
use crate::proposal::{Ballot, Proposal, ProposalDeposit, ProposalDepositView, ProposalView};
use crate::table::{BallotKey, Table};
use crate::threshold::Threshold;
use crate::views::{copy_texts, option_view, views};
use vstd::prelude::*;

verus! {

/// The rules the contract works by.
#[derive(Debug, PartialEq, Eq)]
pub struct Config {
    pub threshold: Threshold,
    pub max_voting_period: Duration,
    /// The token that gives the right to propose and to vote.
    pub cw20_addr: String,
    pub proposal_deposit: ProposalDeposit,
}

/// What a `Config` says.
pub struct ConfigView {
    pub threshold: Threshold,
    pub max_voting_period: Duration,
    pub cw20_addr: Seq<char>,
    pub proposal_deposit: ProposalDepositView,
}

impl View for Config {
    type V = ConfigView;

    open spec fn view(&self) -> ConfigView {
        ConfigView {
            threshold: self.threshold,
            max_voting_period: self.max_voting_period,
            cw20_addr: self.cw20_addr@,
            proposal_deposit: self.proposal_deposit@,
        }
    }
}

impl Clone for Config {
    fn clone(&self) -> (copy: Self)
        ensures
            copy@ == self@,
    {
        Config {
            threshold: self.threshold,
            max_voting_period: self.max_voting_period,
            cw20_addr: self.cw20_addr.clone(),
            proposal_deposit: self.proposal_deposit.clone(),
        }
    }
}

/// Which contract, in which version, wrote the state.
#[derive(Debug, PartialEq, Eq)]
pub struct ContractVersion {
    pub contract: String,
    pub version: String,
}

/// What a `ContractVersion` says.
pub struct ContractVersionView {
    pub contract: Seq<char>,
    pub version: Seq<char>,
}

impl View for ContractVersion {
    type V = ContractVersionView;

    open spec fn view(&self) -> ContractVersionView {
        ContractVersionView { contract: self.contract@, version: self.version@ }
    }
}

/// All that the contract remembers from one message to the next.
#[derive(Debug, PartialEq, Eq)]
pub struct Dao {
    pub version: Option<ContractVersion>,
    pub config: Option<Config>,
    /// The tokens that the contract may hold.
    pub treasury_tokens: Option<Vec<String>>,
    /// The number of proposals so far, which is the identifier of the last one.
    pub proposal_count: u64,
    pub proposals: Table<u64, Proposal>,
    pub ballots: Table<BallotKey, Ballot>,
}

/// What a `Dao` says.
#[verifier::ext_equal]
pub struct DaoView {
    pub version: Option<ContractVersionView>,
    pub config: Option<ConfigView>,
    pub treasury_tokens: Option<Seq<Seq<char>>>,
    pub proposal_count: u64,
    pub proposals: Map<u64, ProposalView>,
    pub ballots: Map<(u64, Seq<char>), Ballot>,
}

/// The texts in a list, if there is one.
pub open spec fn texts_view(texts: Option<Vec<String>>) -> Option<Seq<Seq<char>>> {
    match texts {
        Some(list) => Some(views(list@)),
        None => None,
    }
}

impl View for Dao {
    type V = DaoView;

    open spec fn view(&self) -> DaoView {
        DaoView {
            version: option_view(self.version),
            config: option_view(self.config),
            treasury_tokens: texts_view(self.treasury_tokens),
            proposal_count: self.proposal_count,
            proposals: self.proposals@,
            ballots: self.ballots@,
        }
    }
}

impl DaoView {
    /// Nothing has been stored yet.
    pub open spec fn empty() -> DaoView {
        DaoView {
            version: None,
            config: None,
            treasury_tokens: None,
            proposal_count: 0,
            proposals: Map::empty(),
            ballots: Map::empty(),
        }
    }

    /// The rule for new proposals is one that can be met, and so are those of the proposals that
    /// there are, whose votes can be counted.
    pub open spec fn wf(self) -> bool {
        &&& self.config matches Some(config) ==> config.threshold.valid()
        &&& forall|id: u64| #[trigger]
            self.proposals.dom().contains(id) ==> self.proposals[id].wf()
    }

    /// The state with a proposal stored under an identifier.
    pub open spec fn with_proposal(self, id: u64, proposal: ProposalView) -> DaoView {
        DaoView { proposals: self.proposals.insert(id, proposal), ..self }
    }

    /// The tokens the contract may hold, or the error that there is no list of them.
    pub open spec fn tokens_or_missing(self) -> Result<Seq<Seq<char>>, PlatformErrorView> {
        match self.treasury_tokens {
            Some(tokens) => Ok(tokens),
            None => Err(PlatformError::missing(Record::TreasuryTokens)),
        }
    }

    /// The rules, or the error that there are none.
    pub open spec fn config_or_missing(self) -> Result<ConfigView, PlatformErrorView> {
        match self.config {
            Some(config) => Ok(config),
            None => Err(PlatformError::missing(Record::Config)),
        }
    }

    /// The proposal, or the error that there is none.
    pub open spec fn proposal_or_missing(self, id: u64) -> Result<ProposalView, PlatformErrorView> {
        if self.proposals.dom().contains(id) {
            Ok(self.proposals[id])
        } else {
            Err(PlatformError::missing(Record::Proposal))
        }
    }
}

impl Dao {
    /// The tables are in order, and what they hold is well formed.
    pub open spec fn wf(self) -> bool {
        &&& self.proposals.wf()
        &&& self.ballots.wf()
        &&& self@.wf()
    }

    /// A contract that has not been set up.
    pub fn new() -> (dao: Dao)
        ensures
            dao.wf(),
            dao@ == DaoView::empty(),
    {
        Dao {
            version: None,
            config: None,
            treasury_tokens: None,
            proposal_count: 0,
            proposals: Table::new(),
            ballots: Table::new(),
        }
    }

    /// The rules.
    pub fn load_config(&self) -> (config: Result<Config, PlatformError>)
        ensures
            std_result(config) == self@.config_or_missing(),
    {
        match &self.config {
            Some(config) => Ok(config.clone()),
            None => Err(PlatformError::NotFound { record: Record::Config }),
        }
    }

    /// The tokens the contract may hold.
    pub fn load_treasury_tokens(&self) -> (tokens: Result<Vec<String>, PlatformError>)
        ensures
            match tokens {
                Ok(list) => self@.tokens_or_missing() == Ok::<_, PlatformErrorView>(views(list@)),
                Err(error) => self@.tokens_or_missing() == Err::<Seq<Seq<char>>, _>(error@),
            },
    {
        match &self.treasury_tokens {
            Some(tokens) => Ok(copy_texts(tokens)),
            None => Err(PlatformError::NotFound { record: Record::TreasuryTokens }),
        }
    }

    /// A proposal.
    pub fn load_proposal(&self, id: u64) -> (proposal: Result<Proposal, PlatformError>)
        requires
            self.wf(),
        ensures
            std_result(proposal) == self@.proposal_or_missing(id),
    {
        match self.proposals.get(&id) {
            Some(proposal) => Ok(proposal.clone()),
            None => Err(PlatformError::NotFound { record: Record::Proposal }),
        }
    }

    /// Takes the next identifier for a proposal.
    pub fn next_id(&mut self) -> (id: u64)
        requires
            old(self).proposal_count < u64::MAX,
        ensures
            id == old(self)@.proposal_count + 1,
            final(self)@ == (DaoView { proposal_count: id, ..old(self)@ }),
            old(self).wf() ==> final(self).wf(),
    {
        self.proposal_count = self.proposal_count + 1;
        self.proposal_count
    }
}

/// The number that bytes stand for, the most significant first.
pub open spec fn big_endian(bytes: Seq<u8>) -> nat
    decreases bytes.len(),
{
    if bytes.len() == 0 {
        0
    } else {
        256 * big_endian(bytes.drop_last()) + bytes.last() as nat
    }
}

/// What `parse_id` says of a key that is not eight bytes long.
pub open spec fn corrupted_id() -> PlatformErrorView {
    PlatformErrorView::GenericErr { msg: "Corrupted data found. 8 byte expected."@ }
}

/// What `parse_id` returns: the number that the eight bytes of a key stand for.
pub open spec fn parsed_id(key: Seq<u8>) -> Result<nat, PlatformErrorView> {
    if key.len() == 8 {
        Ok(big_endian(key))
    } else {
        Err(corrupted_id())
    }
}

/// The identifier of the proposal that is stored under a key of eight bytes.
pub fn parse_id(key: &Vec<u8>) -> (id: Result<u64, PlatformError>)
    ensures
        match id {
            Ok(number) => parsed_id(key@) == Ok::<nat, PlatformErrorView>(number as nat),
            Err(error) => parsed_id(key@) == Err::<nat, _>(error@),
        },
{
    if key.len() != 8 {
        return Err(
            PlatformError::GenericErr { msg: "Corrupted data found. 8 byte expected.".to_owned() },
        );
    }
    let mut number: u64 = 0;
    let mut i: usize = 0;
    proof {
        assert(key@.take(0) =~= Seq::<u8>::empty());
    }
    while i < 7
        invariant
            key@.len() == 8,
            i <= 7,
            number == big_endian(key@.take(i as int)),
            number < pow256(i as nat),
        decreases 7 - i,
    {
        proof {
            assert(key@.take(i + 1).drop_last() =~= key@.take(i as int));
            lemma_pow256();
            assert(pow256((i + 1) as nat) == 256 * pow256(i as nat));
        }
        number = number * 256 + key[i] as u64;
        i += 1;
    }
    proof {
        assert(key@.take(8).drop_last() =~= key@.take(7));
        assert(key@.take(8) =~= key@);
        lemma_pow256();
    }
    Ok(number * 256 + key[7] as u64)
}

/// How many numbers can be written with so many bytes.
pub open spec fn pow256(n: nat) -> nat
    decreases n,
{
    if n == 0 {
        1
    } else {
        256 * pow256((n - 1) as nat)
    }
}

/// The last bytes of a number, the most significant first.
fn last_bytes(number: u64, len: usize) -> (bytes: Vec<u8>)
    ensures
        bytes@.len() == len,
        number < pow256(len as nat) ==> big_endian(bytes@) == number,
    decreases len,
{
    if len == 0 {
        return Vec::new();
    }
    let mut bytes = last_bytes(number / 256, len - 1);
    let ghost upper = bytes@;
    bytes.push((number % 256) as u8);
    proof {
        assert(bytes@.drop_last() =~= upper);
    }
    bytes
}

/// The key of eight bytes that a proposal is stored under.
pub fn id_key(id: u64) -> (key: Vec<u8>)
    ensures
        parsed_id(key@) == Ok::<nat, PlatformErrorView>(id as nat),
{
    proof {
        reveal_with_fuel(pow256, 9);
    }
    last_bytes(id, 8)
}

proof fn lemma_pow256()
    ensures
        forall|n: nat| n <= 7 ==> #[trigger] pow256(n) <= 0x100_0000_0000_0000,
        pow256(7) == 0x100_0000_0000_0000,
{
    reveal_with_fuel(pow256, 8);
}

} // verus!
