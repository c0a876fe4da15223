//! Obligation kinds and their program-derived account addresses.
//!
//! An obligation account's address is derived from a tag, an id, the user,
//! the market, and up to two auxiliary token identifiers, concatenated as
//! seeds in a fixed order.

use crate::address::Address;
use crate::error::KaminoError;
use crate::pda::pda_of;
use crate::pda::spec_seeds_ok;
use vstd::prelude::*;

verus! {

/// The kinds of obligation an account can represent.
#[derive(Debug, Clone)]
pub enum ObligationType {
    VanillaObligation { tag: u8, id: u8, program_id: Address },
    MultiplyObligation { tag: u8, id: u8, program_id: Address, coll_token: Address, debt_token: Address },
    LendingObligation { tag: u8, id: u8, program_id: Address, token: Address },
    LeverageObligation { tag: u8, id: u8, program_id: Address, coll_token: Address, debt_token: Address },
}

/// The seed material of an obligation address: its tag, its id and the two
/// auxiliary seeds.
#[derive(Debug, Clone)]
pub struct InitObligationArgsModel {
    pub tag: u8,
    pub id: u8,
    pub seed1: Address,
    pub seed2: Address,
}

/// The seed sequence of an obligation address, in its fixed order: tag,
/// id, user, market, and the two auxiliary seeds.
pub open spec fn spec_obligation_seeds(
    market: Seq<u8>,
    user: Seq<u8>,
    tag: u8,
    id: u8,
    seed1: Seq<u8>,
    seed2: Seq<u8>,
) -> Seq<Seq<u8>> {
    seq![seq![tag], seq![id], user, market, seed1, seed2]
}

impl ObligationType {
    /// Builds the obligation kind selected by `obligation_tag`, or rejects
    /// an unknown tag.
    pub fn get_obligation_by_type(
        obligation_tag: u8,
        mint_address_1: Address,
        mint_address_2: Address,
    ) -> (r: Result<ObligationType, KaminoError>)
        ensures
            obligation_tag == 0 ==> (r matches Ok(o) && o matches ObligationType::VanillaObligation {
                tag, id, .. } && tag == 0 && id == 0),
            obligation_tag == 1 ==> (r matches Ok(o) && (o matches
                ObligationType::MultiplyObligation { tag, id, coll_token, debt_token, .. }
                && tag == 1 && id == 0 && coll_token@ == mint_address_1@ && debt_token@
                == mint_address_2@)),
            obligation_tag == 2 ==> (r matches Ok(o) && (o matches ObligationType::LendingObligation {
                tag, id, token, .. } && tag == 3 && id == 0 && token@ == mint_address_1@)),
            obligation_tag == 3 ==> (r matches Ok(o) && (o matches
                ObligationType::LeverageObligation { tag, id, coll_token, debt_token, .. }
                && tag == 2 && id == 0 && coll_token@ == mint_address_1@ && debt_token@
                == mint_address_2@)),
            obligation_tag > 3 ==> (r matches Err(e) && e == KaminoError::InvalidObligationType),
    {
        match obligation_tag {
            0 => Ok(Self::new_vanilla(Address::zeroed(), None)),
            1 => Ok(Self::new_multiply(mint_address_1, mint_address_2, Address::zeroed(), None)),
            2 => Ok(Self::new_lending(mint_address_1, Address::zeroed(), None)),
            3 => Ok(Self::new_leverage(mint_address_1, mint_address_2, Address::zeroed(), None)),
            _ => Err(KaminoError::InvalidObligationType),
        }
    }

    /// A vanilla obligation: tag 0, with the given id or 0.
    pub fn new_vanilla(program_id: Address, id: Option<u8>) -> (r: ObligationType)
        ensures
            r matches ObligationType::VanillaObligation { tag, id: rid, program_id: pid } && tag == 0
                && rid == (match id { Some(v) => v, None => 0u8 }) && pid@ == program_id@,
    {
        let id = match id {
            Some(id) => id,
            None => 0,
        };
        ObligationType::VanillaObligation { tag: 0, id, program_id }
    }

    /// A multiply obligation: tag 1, collateral and debt tokens kept in
    /// order, with the given id or 0.
    pub fn new_multiply(
        mint_address_1: Address,
        mint_address_2: Address,
        program_id: Address,
        id: Option<u8>,
    ) -> (r: ObligationType)
        ensures
            r matches ObligationType::MultiplyObligation {
                tag, id: rid, program_id: pid, coll_token, debt_token } && tag == 1 && rid == (
            match id { Some(v) => v, None => 0u8 }) && pid@ == program_id@ && coll_token@
                == mint_address_1@ && debt_token@ == mint_address_2@,
    {
        let id = match id {
            Some(id) => id,
            None => 0,
        };
        ObligationType::MultiplyObligation {
            tag: 1,
            id,
            program_id,
            coll_token: mint_address_1,
            debt_token: mint_address_2,
        }
    }

    /// A leverage obligation: tag 2, collateral and debt tokens kept in
    /// order, with the given id or 0.
    pub fn new_leverage(
        mint_address_1: Address,
        mint_address_2: Address,
        program_id: Address,
        id: Option<u8>,
    ) -> (r: ObligationType)
        ensures
            r matches ObligationType::LeverageObligation {
                tag, id: rid, program_id: pid, coll_token, debt_token } && tag == 2 && rid == (
            match id { Some(v) => v, None => 0u8 }) && pid@ == program_id@ && coll_token@
                == mint_address_1@ && debt_token@ == mint_address_2@,
    {
        let id = match id {
            Some(id) => id,
            None => 0,
        };
        ObligationType::LeverageObligation {
            tag: 2,
            id,
            program_id,
            coll_token: mint_address_1,
            debt_token: mint_address_2,
        }
    }

    /// A lending obligation: tag 3, one token, with the given id or 0.
    pub fn new_lending(token: Address, program_id: Address, id: Option<u8>) -> (r: ObligationType)
        ensures
            r matches ObligationType::LendingObligation { tag, id: rid, program_id: pid, token: t }
                && tag == 3 && rid == (match id { Some(v) => v, None => 0u8 }) && pid@
                == program_id@ && t@ == token@,
    {
        let id = match id {
            Some(id) => id,
            None => 0,
        };
        ObligationType::LendingObligation { tag: 3, id, program_id, token }
    }

    /// The program this obligation belongs to.
    fn get_program_id(&self) -> (r: &Address)
        ensures
            r@ == self.spec_program_id(),
    {
        match self {
            ObligationType::VanillaObligation { program_id, .. } => program_id,
            ObligationType::MultiplyObligation { program_id, .. } => program_id,
            ObligationType::LeverageObligation { program_id, .. } => program_id,
            ObligationType::LendingObligation { program_id, .. } => program_id,
        }
    }

    /// The program identifier held by any obligation kind.
    pub open spec fn spec_program_id(&self) -> Seq<u8> {
        match self {
            ObligationType::VanillaObligation { program_id, .. } => program_id@,
            ObligationType::MultiplyObligation { program_id, .. } => program_id@,
            ObligationType::LeverageObligation { program_id, .. } => program_id@,
            ObligationType::LendingObligation { program_id, .. } => program_id@,
        }
    }

    /// The seed material of any obligation kind: a vanilla obligation
    /// seeds two zero addresses, a lending obligation seeds its one token
    /// twice, and the two-token kinds seed collateral then debt.
    pub open spec fn spec_args(&self) -> (u8, u8, Seq<u8>, Seq<u8>) {
        match self {
            ObligationType::VanillaObligation { tag, id, .. } => (
                *tag,
                *id,
                Seq::new(32, |i: int| 0u8),
                Seq::new(32, |i: int| 0u8),
            ),
            ObligationType::MultiplyObligation { tag, id, coll_token, debt_token, .. } => (
                *tag,
                *id,
                coll_token@,
                debt_token@,
            ),
            ObligationType::LeverageObligation { tag, id, coll_token, debt_token, .. } => (
                *tag,
                *id,
                coll_token@,
                debt_token@,
            ),
            ObligationType::LendingObligation { tag, id, token, .. } => (*tag, *id, token@, token@),
        }
    }

    /// Whether every address held by the obligation is well formed.
    pub open spec fn wf(&self) -> bool {
        self.spec_program_id().len() == 32 && self.spec_args().2.len() == 32
            && self.spec_args().3.len() == 32
    }

    /// The seed material used to derive this obligation's address.
    pub fn to_args(self) -> (r: InitObligationArgsModel)
        ensures
            (r.tag, r.id, r.seed1@, r.seed2@) == self.spec_args(),
    {
        match self {
            ObligationType::VanillaObligation { tag, id, .. } => {
                let r = InitObligationArgsModel {
                    tag,
                    id,
                    seed1: Address::zeroed(),
                    seed2: Address::zeroed(),
                };
                proof {
                    assert(r.seed1@ =~= Seq::new(32, |i: int| 0u8));
                    assert(r.seed2@ =~= Seq::new(32, |i: int| 0u8));
                }
                r
            },
            ObligationType::MultiplyObligation { tag, id, coll_token, debt_token, .. } => {
                InitObligationArgsModel { tag, id, seed1: coll_token, seed2: debt_token }
            },
            ObligationType::LeverageObligation { tag, id, coll_token, debt_token, .. } => {
                InitObligationArgsModel { tag, id, seed1: coll_token, seed2: debt_token }
            },
            ObligationType::LendingObligation { tag, id, token, .. } => {
                let seed2 = token.clone();
                InitObligationArgsModel { tag, id, seed1: token, seed2 }
            },
        }
    }

    /// The derived address of this obligation for a market and a user,
    /// together with the bump used.
    pub fn to_pda(self, market: Address, user: Address) -> (r: Result<(Address, u8), KaminoError>)
        requires
            self.wf(),
            market.wf(),
            user.wf(),
        ensures
            match pda_of(
                spec_obligation_seeds(
                    market@,
                    user@,
                    self.spec_args().0,
                    self.spec_args().1,
                    self.spec_args().2,
                    self.spec_args().3,
                ),
                self.spec_program_id(),
            ) {
                Some(p) => r matches Ok(q) && q.0@ == p.0 && q.1 == p.1 && q.0.wf(),
                None => r matches Err(e) && e == KaminoError::UnknownError,
            },
    {
        let program_id = self.get_program_id().clone();
        let args = self.to_args();
        get_obligation_pda_with_args(market, user, args, &program_id)
    }
}

/// Derives an obligation account address from the market, the user, the
/// seed material and the owning program: the seeds are the tag, the id,
/// the user, the market and the two auxiliary seeds, in that order.
pub fn get_obligation_pda_with_args(
    market: Address,
    user: Address,
    args: InitObligationArgsModel,
    program_id: &Address,
) -> (r: Result<(Address, u8), KaminoError>)
    requires
        market.wf(),
        user.wf(),
        args.seed1.wf(),
        args.seed2.wf(),
        program_id.wf(),
    ensures
        match pda_of(
            spec_obligation_seeds(market@, user@, args.tag, args.id, args.seed1@, args.seed2@),
            program_id@,
        ) {
            Some(p) => r matches Ok(q) && q.0@ == p.0 && q.1 == p.1 && q.0.wf(),
            None => r matches Err(e) && e == KaminoError::UnknownError,
        },
{
    let mut seeds: Vec<Vec<u8>> = Vec::new();
    let mut tag_seed: Vec<u8> = Vec::new();
    tag_seed.push(args.tag);
    let mut id_seed: Vec<u8> = Vec::new();
    id_seed.push(args.id);
    seeds.push(tag_seed);
    seeds.push(id_seed);
    seeds.push(user.bytes);
    seeds.push(market.bytes);
    seeds.push(args.seed1.bytes);
    seeds.push(args.seed2.bytes);
    let ghost expected = spec_obligation_seeds(
        market@,
        user@,
        args.tag,
        args.id,
        args.seed1@,
        args.seed2@,
    );
    proof {
        assert(seeds.deep_view().len() == 6);
        assert(seeds.deep_view()[0] =~= seq![args.tag]);
        assert(seeds.deep_view()[1] =~= seq![args.id]);
        assert(seeds.deep_view()[2] == user@);
        assert(seeds.deep_view()[3] == market@);
        assert(seeds.deep_view()[4] == args.seed1@);
        assert(seeds.deep_view()[5] == args.seed2@);
        assert(seeds.deep_view() =~= expected);
        assert(spec_seeds_ok(expected));
    }
    match crate::pda::derive(&seeds, program_id) {
        Ok(p) => Ok(p),
        Err(_) => Err(KaminoError::UnknownError),
    }
}

} // verus!
