//! Reading a conversion request from command-line arguments, and choosing the
//! conversion that answers it.
//!
//! The arguments are the program's name, the unit to convert from, the unit to
//! convert to, and the amount; anything after the amount is ignored. The
//! library reads the units itself. Reading the amount as a number is the
//! caller's work: [`Config::amount_token`] says which argument to read, and
//! [`Config::build`] takes what came of reading it.

use vstd::prelude::*;
use crate::amount::Amount;
use crate::convert::{
    route,
    Step,
    LAMPORTS_PER_SOL,
    MICRO_LAMPORTS_PER_LAMPORT,
};
use crate::error::{ConfigError, Position, UnitFault};
use crate::unit::{unit_of_token, Unit};

verus! {

/// Where the unit to convert from stands among the arguments.
pub const SOURCE_INDEX: usize = 1;

/// Where the unit to convert to stands among the arguments.
pub const TARGET_INDEX: usize = 2;

/// Where the amount stands among the arguments.
pub const AMOUNT_INDEX: usize = 3;

/// A request to convert an amount from one unit to another.
pub struct ConversionRequest {
    pub from: Unit,
    pub to: Unit,
    pub amount: Amount,
}

impl ConversionRequest {
    /// A request never asks to convert an amount below zero.
    pub open spec fn valid(self) -> bool {
        !self.amount.below_zero()
    }
}

/// What the arguments come to, given what reading the amount gave: `None`
/// where it did not read as a number. The first fault found, going through
/// the arguments in order, is the one reported.
pub open spec fn request_of(args: Seq<Seq<char>>, amount: Option<Amount>) -> Result<
    ConversionRequest,
    ConfigError,
> {
    if args.len() <= SOURCE_INDEX {
        Err(ConfigError::InvalidUnit(Position::Source, UnitFault::Absent))
    } else if unit_of_token(args[SOURCE_INDEX as int]) is None {
        Err(ConfigError::InvalidUnit(Position::Source, UnitFault::Unrecognized))
    } else if args.len() <= TARGET_INDEX {
        Err(ConfigError::InvalidUnit(Position::Target, UnitFault::Absent))
    } else if unit_of_token(args[TARGET_INDEX as int]) is None {
        Err(ConfigError::InvalidUnit(Position::Target, UnitFault::Unrecognized))
    } else if args.len() <= AMOUNT_INDEX {
        Err(ConfigError::MissingAmount)
    } else if amount is None {
        Err(ConfigError::NotANumber)
    } else if amount->0.below_zero() {
        Err(ConfigError::NegativeAmount)
    } else {
        Ok(
            ConversionRequest {
                from: unit_of_token(args[SOURCE_INDEX as int])->0,
                to: unit_of_token(args[TARGET_INDEX as int])->0,
                amount: amount->0,
            },
        )
    }
}

/// The arguments make a request exactly when both units are named, the
/// amount is there and reads as a number, and that number is not below zero.
pub proof fn lemma_request_made(args: Seq<Seq<char>>, amount: Option<Amount>)
    ensures
        request_of(args, amount) is Ok <==> {
            &&& args.len() > AMOUNT_INDEX
            &&& unit_of_token(args[SOURCE_INDEX as int]) is Some
            &&& unit_of_token(args[TARGET_INDEX as int]) is Some
            &&& amount is Some
            &&& !amount->0.below_zero()
        },
        request_of(args, amount) matches Ok(request) ==> request.valid(),
{
}

/// Arguments after the amount change nothing.
pub proof fn lemma_extra_arguments_ignored(args: Seq<Seq<char>>, amount: Option<Amount>)
    requires
        args.len() > AMOUNT_INDEX,
    ensures
        request_of(args, amount) == request_of(args.subrange(0, AMOUNT_INDEX + 1), amount),
{
}

/// The program's name, the argument in front, changes nothing.
pub proof fn lemma_program_name_ignored(
    args: Seq<Seq<char>>,
    name: Seq<char>,
    amount: Option<Amount>,
)
    requires
        args.len() > 0,
    ensures
        request_of(args.update(0, name), amount) == request_of(args, amount),
{
}

/// A conversion request built from arguments that were all in order.
#[derive(Clone, Copy, Debug)]
pub struct Config {
    from: Unit,
    to: Unit,
    amount: Amount,
}

impl View for Config {
    type V = ConversionRequest;

    closed spec fn view(&self) -> ConversionRequest {
        ConversionRequest { from: self.from, to: self.to, amount: self.amount }
    }
}

impl Config {
    #[verifier::type_invariant]
    spec fn amount_not_below_zero(self) -> bool {
        !self.amount.below_zero()
    }

    /// The argument that holds the amount, if there are that many arguments.
    pub fn amount_token(args: &[String]) -> (token: Option<&str>)
        ensures
            match token {
                Some(text) => args@.len() > AMOUNT_INDEX && text@ == args@[AMOUNT_INDEX as int]@,
                None => args@.len() <= AMOUNT_INDEX,
            },
    {
        if args.len() > AMOUNT_INDEX {
            Some(args[AMOUNT_INDEX].as_str())
        } else {
            None
        }
    }

    /// Builds the request that the arguments make. `amount` is what reading
    /// the amount argument as a number gave, `None` where it did not read as
    /// one; it is looked at only once both units are in order and the
    /// argument is there.
    pub fn build(args: &[String], amount: Option<Amount>) -> (built: Result<Config, ConfigError>)
        ensures
            match request_of(args.deep_view(), amount) {
                Ok(request) => built matches Ok(config) && config@ == request,
                Err(error) => built matches Err(found) && found == error,
            },
            built matches Ok(config) ==> config@.valid(),
    {
        proof {
            assert(args.deep_view().len() == args@.len());
            assert forall|i: int| 0 <= i < args@.len() implies #[trigger] args.deep_view()[i]
                == args@[i]@ by {}
        }
        if args.len() <= SOURCE_INDEX {
            return Err(ConfigError::InvalidUnit(Position::Source, UnitFault::Absent));
        }
        let from: Unit = match Unit::from_str(args[SOURCE_INDEX].as_str()) {
            Ok(unit) => unit,
            Err(_) => {
                return Err(ConfigError::InvalidUnit(Position::Source, UnitFault::Unrecognized));
            },
        };
        if args.len() <= TARGET_INDEX {
            return Err(ConfigError::InvalidUnit(Position::Target, UnitFault::Absent));
        }
        let to: Unit = match Unit::from_str(args[TARGET_INDEX].as_str()) {
            Ok(unit) => unit,
            Err(_) => {
                return Err(ConfigError::InvalidUnit(Position::Target, UnitFault::Unrecognized));
            },
        };
        if args.len() <= AMOUNT_INDEX {
            return Err(ConfigError::MissingAmount);
        }
        let amount: Amount = match amount {
            Some(value) => value,
            None => {
                return Err(ConfigError::NotANumber);
            },
        };
        if amount.is_negative() {
            return Err(ConfigError::NegativeAmount);
        }
        Ok(Config { from, to, amount })
    }

    /// The unit to convert from.
    pub fn from_unit(&self) -> (unit: Unit)
        ensures
            unit == self@.from,
    {
        self.from
    }

    /// The unit to convert to.
    pub fn to_unit(&self) -> (unit: Unit)
        ensures
            unit == self@.to,
    {
        self.to
    }

    /// The amount to convert. It is never below zero.
    pub fn amount(&self) -> (amount: Amount)
        ensures
            amount == self@.amount,
            !amount.below_zero(),
    {
        proof {
            use_type_invariant(self);
        }
        self.amount
    }
}

/// Chooses the conversion that answers the request: the steps to apply to its
/// amount, first to last. A request to convert a unit to itself gets no step,
/// so that the amount comes out untouched.
pub fn run(config: Config) -> (steps: Vec<Step>)
    ensures
        steps@ == route(config@.from, config@.to),
{
    let steps: Vec<Step> = match (config.from_unit(), config.to_unit()) {
        (Unit::Sol, Unit::Lamport) => vec![Step::Multiply(LAMPORTS_PER_SOL)],
        (Unit::Sol, Unit::MicroLamport) => vec![
            Step::Multiply(LAMPORTS_PER_SOL),
            Step::Multiply(MICRO_LAMPORTS_PER_LAMPORT),
        ],
        (Unit::Lamport, Unit::Sol) => vec![Step::Divide(LAMPORTS_PER_SOL)],
        (Unit::Lamport, Unit::MicroLamport) => vec![Step::Multiply(MICRO_LAMPORTS_PER_LAMPORT)],
        (Unit::MicroLamport, Unit::Lamport) => vec![Step::Divide(MICRO_LAMPORTS_PER_LAMPORT)],
        (Unit::MicroLamport, Unit::Sol) => vec![
            Step::Divide(MICRO_LAMPORTS_PER_LAMPORT),
            Step::Divide(LAMPORTS_PER_SOL),
        ],
        (Unit::Sol, Unit::Sol) => Vec::new(),
        (Unit::Lamport, Unit::Lamport) => Vec::new(),
        (Unit::MicroLamport, Unit::MicroLamport) => Vec::new(),
    };
    assert(steps@ =~= route(config@.from, config@.to));
    steps
}

} // verus!
