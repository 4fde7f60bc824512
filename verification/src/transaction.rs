//! Building a transaction away from the ledger: the builder collects inputs
//! and outputs, and lays out what the offline execution is given.
use vstd::prelude::*;
use vstd::string::StringSliceAdditionalSpecFns;
use crate::address::Address;
use crate::hex_codec::{hex_decode, hex_decoded, hex_encode, hex_encoded, HexFault};

verus! {

/// The number of records that a transaction spends.
pub const NUM_INPUT_RECORDS: usize = 2;

/// The number of records that a transaction creates.
pub const NUM_OUTPUT_RECORDS: usize = 2;

/// Why a transaction could not be built or read.
#[derive(Clone, Copy, Debug, PartialEq, Eq, Structural)]
pub enum DPCError {
    /// The number of inputs, and the number allowed.
    InvalidNumberOfInputs(usize, usize),
    /// The number of outputs, and the number allowed.
    InvalidNumberOfOutputs(usize, usize),
    /// The transaction has no output.
    MissingOutputs,
    /// The text is no hexadecimal encoding.
    FromHexError(HexFault),
}

/// An account private key, in its encoded form.
#[derive(Clone, Debug)]
pub struct PrivateKey {
    pub encoded: String,
}

impl PrivateKey {
    pub fn duplicate(&self) -> (copy: PrivateKey)
        ensures
            copy == *self,
    {
        PrivateKey { encoded: self.encoded.clone() }
    }
}

/// A record: its owner, and the record in its encoded form.
#[derive(Clone, Debug)]
pub struct Record {
    pub owner: Address,
    pub encoded: String,
}

impl Record {
    pub fn duplicate(&self) -> (copy: Record)
        ensures
            copy == *self,
    {
        Record { owner: self.owner, encoded: self.encoded.clone() }
    }
}

/// A record to spend, with the private key of its owner.
#[derive(Clone, Debug)]
pub struct Input {
    pub private_key: PrivateKey,
    pub record: Record,
}

/// An amount for a recipient.
#[derive(Clone, Copy, Debug, PartialEq, Eq, Structural)]
pub struct Output {
    pub recipient: Address,
    pub amount: u64,
}

/// `items`, filled up to `count` entries with `fill`. A longer sequence
/// stays as it is.
pub open spec fn padded<T>(items: Seq<T>, count: nat, fill: T) -> Seq<T> {
    if items.len() >= count {
        items
    } else {
        items + Seq::new((count - items.len()) as nat, |i: int| fill)
    }
}

/// What the offline execution is given: as many old records and keys as a
/// transaction spends, and as many new records as it creates.
#[derive(Clone, Debug)]
pub struct ExecutionPlan {
    /// The key for each old record; the first key stands in for each record
    /// that is yet to be made.
    pub old_account_private_keys: Vec<PrivateKey>,
    /// The records to spend; `None` where a dummy record owned by the first
    /// key is to be made.
    pub old_records: Vec<Option<Record>>,
    /// The owner of each new record; the first owner stands in for each
    /// dummy record.
    pub new_record_owners: Vec<Address>,
    /// Which of the new records are dummies.
    pub new_is_dummy_flags: Vec<bool>,
    /// The value of each new record; a dummy record has none.
    pub new_values: Vec<u64>,
    /// The network that the transaction is for.
    pub network_id: u8,
}

/// The plan for the given keys, records, recipients and amounts.
pub open spec fn planned(
    plan: ExecutionPlan,
    spenders: Seq<PrivateKey>,
    records_to_spend: Seq<Record>,
    recipients: Seq<Address>,
    recipient_amounts: Seq<u64>,
    network_id: u8,
) -> bool {
    &&& plan.old_account_private_keys@ == padded(spenders, NUM_INPUT_RECORDS as nat, spenders[0])
    &&& plan.old_records@ == padded(
        records_to_spend.map_values(|r: Record| Some(r)),
        NUM_INPUT_RECORDS as nat,
        None,
    )
    &&& plan.new_record_owners@ == padded(recipients, NUM_OUTPUT_RECORDS as nat, recipients[0])
    &&& plan.new_is_dummy_flags@ == padded(
        Seq::new(recipients.len(), |i: int| false),
        NUM_OUTPUT_RECORDS as nat,
        true,
    )
    &&& plan.new_values@ == padded(recipient_amounts, NUM_OUTPUT_RECORDS as nat, 0)
    &&& plan.network_id == network_id
}

/// An offline transaction: the execution context in its encoded form.
#[derive(Clone, Debug)]
pub struct OfflineTransaction {
    pub execute_context: Vec<u8>,
}

impl OfflineTransaction {
    /// Lays out what the offline execution is given: the records to spend
    /// with their keys, filled up with dummy records of the first key, and
    /// the new records, filled up with dummy records of the first recipient.
    pub fn offline_transaction_execution(
        spenders: Vec<PrivateKey>,
        records_to_spend: Vec<Record>,
        recipients: Vec<Address>,
        recipient_amounts: Vec<u64>,
        network_id: u8,
    ) -> (plan: ExecutionPlan)
        requires
            0 < spenders@.len() <= NUM_INPUT_RECORDS,
            spenders@.len() == records_to_spend@.len(),
            0 < recipients@.len() <= NUM_OUTPUT_RECORDS,
            recipients@.len() == recipient_amounts@.len(),
        ensures
            planned(
                plan,
                spenders@,
                records_to_spend@,
                recipients@,
                recipient_amounts@,
                network_id,
            ),
    {
        let ghost given = records_to_spend@.map_values(|r: Record| Some(r));
        let first_key = spenders[0].duplicate();
        let first_owner = recipients[0];
        let mut old_account_private_keys = spenders;
        let mut records_to_spend = records_to_spend;
        let mut old_records: Vec<Option<Record>> = Vec::new();

        // Records leave `records_to_spend` from its front.
        while records_to_spend.len() > 0
            invariant
                old_records@ + records_to_spend@.map_values(|r: Record| Some(r)) =~= given,
            decreases records_to_spend@.len(),
        {
            let ghost rest = records_to_spend@;
            let record = records_to_spend.remove(0);
            old_records.push(Some(record));
            proof {
                assert(records_to_spend@ =~= rest.subrange(1, rest.len() as int));
            }
        }
        proof {
            assert(old_records@ =~= given);
        }

        while old_records.len() < NUM_INPUT_RECORDS
            invariant
                given.len() == spenders@.len(),
                0 < spenders@.len() <= NUM_INPUT_RECORDS,
                first_key == spenders@[0],
                old_records@.len() == old_account_private_keys@.len(),
                given.len() <= old_records@.len() <= NUM_INPUT_RECORDS,
                old_records@ =~= given + Seq::new(
                    (old_records@.len() - given.len()) as nat,
                    |i: int| None::<Record>,
                ),
                old_account_private_keys@ =~= spenders@ + Seq::new(
                    (old_records@.len() - given.len()) as nat,
                    |i: int| first_key,
                ),
            decreases NUM_INPUT_RECORDS - old_records@.len(),
        {
            old_records.push(None);
            old_account_private_keys.push(first_key.duplicate());
        }

        // Decode the new recipient data.
        let mut new_record_owners = recipients;
        let mut new_values = recipient_amounts;
        let mut new_is_dummy_flags: Vec<bool> = Vec::new();
        while new_is_dummy_flags.len() < new_record_owners.len()
            invariant
                new_record_owners@ == recipients@,
                new_is_dummy_flags@.len() <= new_record_owners@.len(),
                new_is_dummy_flags@ =~= Seq::new(new_is_dummy_flags@.len(), |i: int| false),
            decreases new_record_owners@.len() - new_is_dummy_flags@.len(),
        {
            new_is_dummy_flags.push(false);
        }

        // Fill any unused new record with dummy output values.
        while new_record_owners.len() < NUM_OUTPUT_RECORDS
            invariant
                0 < recipients@.len() <= NUM_OUTPUT_RECORDS,
                recipients@.len() == recipient_amounts@.len(),
                first_owner == recipients@[0],
                recipients@.len() <= new_record_owners@.len() <= NUM_OUTPUT_RECORDS,
                new_is_dummy_flags@.len() == new_record_owners@.len(),
                new_values@.len() == new_record_owners@.len(),
                new_record_owners@ =~= recipients@ + Seq::new(
                    (new_record_owners@.len() - recipients@.len()) as nat,
                    |i: int| first_owner,
                ),
                new_is_dummy_flags@ =~= Seq::new(recipients@.len(), |i: int| false) + Seq::new(
                    (new_record_owners@.len() - recipients@.len()) as nat,
                    |i: int| true,
                ),
                new_values@ =~= recipient_amounts@ + Seq::new(
                    (new_record_owners@.len() - recipients@.len()) as nat,
                    |i: int| 0u64,
                ),
            decreases NUM_OUTPUT_RECORDS - new_record_owners@.len(),
        {
            new_record_owners.push(first_owner);
            new_is_dummy_flags.push(true);
            new_values.push(0);
        }

        let plan = ExecutionPlan {
            old_account_private_keys,
            old_records,
            new_record_owners,
            new_is_dummy_flags,
            new_values,
            network_id,
        };
        proof {
            assert(plan.old_account_private_keys@ =~= padded(
                spenders@,
                NUM_INPUT_RECORDS as nat,
                spenders@[0],
            ));
            assert(plan.old_records@ =~= padded(given, NUM_INPUT_RECORDS as nat, None));
            assert(plan.new_record_owners@ =~= padded(
                recipients@,
                NUM_OUTPUT_RECORDS as nat,
                recipients@[0],
            ));
            assert(plan.new_is_dummy_flags@ =~= padded(
                Seq::new(recipients@.len(), |i: int| false),
                NUM_OUTPUT_RECORDS as nat,
                true,
            ));
            assert(plan.new_values@ =~= padded(recipient_amounts@, NUM_OUTPUT_RECORDS as nat, 0));
        }
        plan
    }

    /// Reads an offline transaction from its hexadecimal text.
    pub fn from_str(execute_context: &str) -> (r: Result<Self, DPCError>)
        ensures
            match hex_decoded(execute_context.spec_bytes()) {
                Ok(bytes) => r is Ok && r->Ok_0.execute_context@ == bytes,
                Err(e) => r == Err::<Self, DPCError>(DPCError::FromHexError(e)),
            },
    {
        match hex_decode(execute_context) {
            Ok(bytes) => Ok(OfflineTransaction { execute_context: bytes }),
            Err(e) => Err(DPCError::FromHexError(e)),
        }
    }

    /// The hexadecimal text of the offline transaction.
    pub fn to_string(&self) -> (text: String)
        ensures
            text@ == hex_encoded(self.execute_context@),
    {
        hex_encode(&self.execute_context)
    }
}

/// Collects the inputs and outputs of a transaction.
#[derive(Clone, Debug)]
pub struct OfflineTransactionBuilder {
    /// Transaction inputs
    pub inputs: Vec<Input>,
    /// Transaction outputs
    pub outputs: Vec<Output>,
    /// Network ID
    pub network_id: u8,
    /// Transaction memo
    pub memo: Option<[u8; 32]>,
}

/// What [`OfflineTransactionBuilder::build`] answers to the numbers of
/// inputs and outputs: the first fault, if there is one.
pub open spec fn build_fault(inputs: nat, outputs: nat) -> Option<DPCError> {
    if inputs != 1 && inputs != 2 {
        Some(DPCError::InvalidNumberOfInputs(inputs as usize, NUM_INPUT_RECORDS))
    } else if outputs == 0 {
        Some(DPCError::MissingOutputs)
    } else if outputs != 1 && outputs != 2 {
        Some(DPCError::InvalidNumberOfInputs(outputs as usize, NUM_INPUT_RECORDS))
    } else {
        None
    }
}

impl OfflineTransactionBuilder {
    /// A builder without inputs and outputs, for network 1 and without memo.
    pub fn new() -> (builder: Self)
        ensures
            builder.inputs@ == Seq::<Input>::empty(),
            builder.outputs@ == Seq::<Output>::empty(),
            builder.network_id == 1,
            builder.memo is None,
    {
        OfflineTransactionBuilder {
            inputs: Vec::new(),
            outputs: Vec::new(),
            network_id: 1,
            memo: None,
        }
    }

    /// Returns a new transaction builder with the added transaction input.
    /// A builder that holds more inputs than a transaction spends takes no
    /// further one.
    pub fn add_input(self, private_key: PrivateKey, record: Record) -> (r: Result<Self, DPCError>)
        requires
            self.inputs@.len() < usize::MAX,
        ensures
            self.inputs@.len() > NUM_INPUT_RECORDS ==> r == Err::<Self, DPCError>(
                DPCError::InvalidNumberOfInputs(
                    (self.inputs@.len() + 1) as usize,
                    NUM_INPUT_RECORDS,
                ),
            ),
            self.inputs@.len() <= NUM_INPUT_RECORDS ==> r is Ok && r->Ok_0.inputs@
                == self.inputs@.push(Input { private_key, record }) && r->Ok_0.outputs
                == self.outputs && r->Ok_0.network_id == self.network_id && r->Ok_0.memo
                == self.memo,
    {
        if self.inputs.len() > NUM_INPUT_RECORDS {
            return Err(DPCError::InvalidNumberOfInputs(self.inputs.len() + 1, NUM_INPUT_RECORDS));
        }
        let mut builder = self;
        builder.inputs.push(Input { private_key, record });
        Ok(builder)
    }

    /// Returns a new transaction builder with the added transaction output.
    /// A builder that holds more outputs than a transaction creates takes no
    /// further one.
    pub fn add_output(self, recipient: Address, amount: u64) -> (r: Result<Self, DPCError>)
        requires
            self.outputs@.len() < usize::MAX,
        ensures
            self.outputs@.len() > NUM_OUTPUT_RECORDS ==> r == Err::<Self, DPCError>(
                DPCError::InvalidNumberOfOutputs(
                    (self.outputs@.len() + 1) as usize,
                    NUM_OUTPUT_RECORDS,
                ),
            ),
            self.outputs@.len() <= NUM_OUTPUT_RECORDS ==> r is Ok && r->Ok_0.outputs@
                == self.outputs@.push(Output { recipient, amount }) && r->Ok_0.inputs
                == self.inputs && r->Ok_0.network_id == self.network_id && r->Ok_0.memo
                == self.memo,
    {
        if self.outputs.len() > NUM_OUTPUT_RECORDS {
            return Err(
                DPCError::InvalidNumberOfOutputs(self.outputs.len() + 1, NUM_OUTPUT_RECORDS),
            );
        }
        let mut builder = self;
        builder.outputs.push(Output { recipient, amount });
        Ok(builder)
    }

    /// Returns a new transaction builder with the updated network id.
    pub fn network_id(self, network_id: u8) -> (builder: Self)
        ensures
            builder.network_id == network_id,
            builder.inputs == self.inputs,
            builder.outputs == self.outputs,
            builder.memo == self.memo,
    {
        let mut builder = self;
        builder.network_id = network_id;
        builder
    }

    /// Returns a new transaction builder with the updated memo.
    pub fn memo(self, memo: [u8; 32]) -> (builder: Self)
        ensures
            builder.memo == Some(memo),
            builder.inputs == self.inputs,
            builder.outputs == self.outputs,
            builder.network_id == self.network_id,
    {
        let mut builder = self;
        builder.memo = Some(memo);
        builder
    }

    /// Returns the plan of the offline execution for the inputs and outputs
    /// of the builder. A transaction has one or two inputs and one or two
    /// outputs.
    pub fn build(&self) -> (r: Result<ExecutionPlan, DPCError>)
        ensures
            match build_fault(self.inputs@.len(), self.outputs@.len()) {
                Some(e) => r == Err::<ExecutionPlan, DPCError>(e),
                None => r is Ok && planned(
                    r->Ok_0,
                    self.inputs@.map_values(|i: Input| i.private_key),
                    self.inputs@.map_values(|i: Input| i.record),
                    self.outputs@.map_values(|o: Output| o.recipient),
                    self.outputs@.map_values(|o: Output| o.amount),
                    self.network_id,
                ),
            },
    {
        let num_inputs = self.inputs.len();
        if num_inputs != 1 && num_inputs != 2 {
            return Err(DPCError::InvalidNumberOfInputs(num_inputs, NUM_INPUT_RECORDS));
        }
        let num_outputs = self.outputs.len();
        if num_outputs == 0 {
            return Err(DPCError::MissingOutputs);
        }
        if num_outputs != 1 && num_outputs != 2 {
            return Err(DPCError::InvalidNumberOfInputs(num_outputs, NUM_INPUT_RECORDS));
        }
        // Construct the parameters from the given transaction inputs.

        let mut spenders: Vec<PrivateKey> = Vec::new();
        let mut records_to_spend: Vec<Record> = Vec::new();
        let mut i: usize = 0;
        while i < self.inputs.len()
            invariant
                i <= self.inputs@.len(),
                spenders@ =~= self.inputs@.subrange(0, i as int).map_values(
                    |i: Input| i.private_key,
                ),
                records_to_spend@ =~= self.inputs@.subrange(0, i as int).map_values(
                    |i: Input| i.record,
                ),
            decreases self.inputs@.len() - i,
        {
            spenders.push(self.inputs[i].private_key.duplicate());
            records_to_spend.push(self.inputs[i].record.duplicate());
            i += 1;
        }
        // Construct the parameters from the given transaction outputs.
        let mut recipients: Vec<Address> = Vec::new();
        let mut recipient_amounts: Vec<u64> = Vec::new();
        let mut j: usize = 0;
        while j < self.outputs.len()
            invariant
                j <= self.outputs@.len(),
                recipients@ =~= self.outputs@.subrange(0, j as int).map_values(
                    |o: Output| o.recipient,
                ),
                recipient_amounts@ =~= self.outputs@.subrange(0, j as int).map_values(
                    |o: Output| o.amount,
                ),
            decreases self.outputs@.len() - j,
        {
            recipients.push(self.outputs[j].recipient);
            recipient_amounts.push(self.outputs[j].amount);
            j += 1;
        }
        proof {
            assert(self.inputs@.subrange(0, self.inputs@.len() as int) =~= self.inputs@);
            assert(self.outputs@.subrange(0, self.outputs@.len() as int) =~= self.outputs@);
        }
        Ok(
            OfflineTransaction::offline_transaction_execution(
                spenders,
                records_to_spend,
                recipients,
                recipient_amounts,
                self.network_id,
            ),
        )
    }
}

} // verus!
