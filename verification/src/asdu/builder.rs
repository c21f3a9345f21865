use vstd::prelude::*;
use vstd::std_specs::convert::IntoSpec;

use crate::error::AduError;
use crate::info::InformationObject;
use crate::types::{CauseOfTransmission, CommonAddress, OriginatorAddress};

use super::header::AsduHeader;
use super::ioa::InformationObjectAddress;
use super::{Asdu, AsduView, Indexed};

verus! {

/// What a builder holds.
pub struct AsduBuilderView {
    pub cause: CauseOfTransmission,
    pub common_address: CommonAddress,
    pub is_test: bool,
    pub is_negative: bool,
    pub originator_address: OriginatorAddress,
    pub is_sequence: bool,
    pub objects: Seq<Indexed<InformationObject>>,
}

/// Fluent builder for constructing validated ASDUs.
pub struct AsduBuilder {
    cause: CauseOfTransmission,
    common_address: CommonAddress,
    is_test: bool,
    is_negative: bool,
    originator_address: OriginatorAddress,
    is_sequence: bool,
    objects: Vec<Indexed<InformationObject>>,
}

impl View for AsduBuilder {
    type V = AsduBuilderView;

    closed spec fn view(&self) -> AsduBuilderView {
        AsduBuilderView {
            cause: self.cause,
            common_address: self.common_address,
            is_test: self.is_test,
            is_negative: self.is_negative,
            originator_address: self.originator_address,
            is_sequence: self.is_sequence,
            objects: self.objects@,
        }
    }
}

/// At most 127 objects, all of the type of the first.
pub open spec fn builder_objects_valid(objects: Seq<Indexed<InformationObject>>) -> bool {
    &&& objects.len() <= 127
    &&& forall|i: int|
        0 <= i < objects.len() ==> (#[trigger] objects[i]).value.spec_type_id()
            == objects[0].value.spec_type_id()
}

/// Why adding `object` to a builder holding `objects` is refused, if it is:
/// the 127 objects are full, or its type is not that of the first object.
pub open spec fn builder_add_error(objects: Seq<Indexed<InformationObject>>, object: InformationObject) -> Option<
    AduError,
> {
    if objects.len() >= 127 {
        Some(AduError::TooManyObjects)
    } else if objects.len() > 0 && objects[0].value.spec_type_id() != object.spec_type_id() {
        Some(
            AduError::TypeMismatch {
                expected: objects[0].value.spec_type_id().code(),
                got: object.spec_type_id().code(),
            },
        )
    } else {
        None
    }
}

/// The ASDU that a builder holding `b` builds: the header takes the type of
/// the first object and counts the objects.
pub open spec fn built_asdu(b: AsduBuilderView) -> AsduView {
    AsduView {
        header: AsduHeader {
            type_id: b.objects[0].value.spec_type_id(),
            is_sequence: b.is_sequence,
            num_objects: b.objects.len() as u8,
            cause: b.cause,
            is_test: b.is_test,
            is_negative: b.is_negative,
            originator_address: b.originator_address,
            common_address: b.common_address,
        },
        objects: b.objects,
    }
}

impl AsduBuilder {
    /// Every builder holds at most 127 objects, all of one type.
    #[verifier::type_invariant]
    spec fn objects_valid(self) -> bool {
        builder_objects_valid(self.objects@)
    }

    pub fn new(cause: CauseOfTransmission, common_address: CommonAddress) -> (r: Self)
        ensures
            r@ == (AsduBuilderView {
                cause,
                common_address,
                is_test: false,
                is_negative: false,
                originator_address: OriginatorAddress(0),
                is_sequence: false,
                objects: Seq::empty(),
            }),
    {
        AsduBuilder {
            cause,
            common_address,
            is_test: false,
            is_negative: false,
            originator_address: OriginatorAddress::default(),
            is_sequence: false,
            objects: Vec::new(),
        }
    }

    pub fn test(self, value: bool) -> (r: Self)
        ensures
            r@ == (AsduBuilderView { is_test: value, ..self@ }),
    {
        proof {
            use_type_invariant(&self);
        }
        let mut b = self;
        b.is_test = value;
        b
    }

    pub fn negative(self, value: bool) -> (r: Self)
        ensures
            r@ == (AsduBuilderView { is_negative: value, ..self@ }),
    {
        proof {
            use_type_invariant(&self);
        }
        let mut b = self;
        b.is_negative = value;
        b
    }

    pub fn originator(self, addr: OriginatorAddress) -> (r: Self)
        ensures
            r@ == (AsduBuilderView { originator_address: addr, ..self@ }),
    {
        proof {
            use_type_invariant(&self);
        }
        let mut b = self;
        b.originator_address = addr;
        b
    }

    pub fn sequential(self, value: bool) -> (r: Self)
        ensures
            r@ == (AsduBuilderView { is_sequence: value, ..self@ }),
    {
        proof {
            use_type_invariant(&self);
        }
        let mut b = self;
        b.is_sequence = value;
        b
    }

    /// Add an information object. All objects must share the same TypeId.
    pub fn add<A: Into<InformationObjectAddress>>(self, ioa: A, object: InformationObject) -> (r: Result<
        Self,
        AduError,
    >)
        ensures
            match builder_add_error(self@.objects, object) {
                Some(e) => r matches Err(x) && x == e,
                None => r matches Ok(b) && b@.objects.len() == self@.objects.len() + 1
                    && b@.objects.take(self@.objects.len() as int) == self@.objects
                    && b@.objects.last().value == object
                    && (A::obeys_into_spec() ==> b@.objects.last().address == ioa.into_spec())
                    && b@ == (AsduBuilderView { objects: b@.objects, ..self@ }),
            },
    {
        let address = ioa.into();
        self.add_at(address, object)
    }

    /// Add an information object at an address.
    pub(crate) fn add_at(self, address: InformationObjectAddress, object: InformationObject) -> (r: Result<
        Self,
        AduError,
    >)
        ensures
            match builder_add_error(self@.objects, object) {
                Some(e) => r matches Err(x) && x == e,
                None => r matches Ok(b) && b@ == (AsduBuilderView {
                    objects: self@.objects.push(Indexed { address, value: object }),
                    ..self@
                }),
            },
    {
        proof {
            use_type_invariant(&self);
        }
        if self.objects.len() >= 127 {
            return Err(AduError::TooManyObjects);
        }
        if self.objects.len() > 0 {
            let first = self.objects[0].value.type_id();
            let got = object.type_id();
            if first != got {
                return Err(AduError::TypeMismatch { expected: first.as_u8(), got: got.as_u8() });
            }
        }
        let mut b = self;
        let ghost before = b.objects@;
        let mut objects = Vec::new();
        std::mem::swap(&mut objects, &mut b.objects);
        objects.push(Indexed { address, value: object });
        assert(builder_objects_valid(objects@)) by {
            assert forall|i: int| 0 <= i < objects@.len() implies (#[trigger] objects@[i]).value.spec_type_id()
                == objects@[0].value.spec_type_id() by {
                if i < before.len() {
                    assert(objects@[i] == before[i]);
                }
            }
        }
        std::mem::swap(&mut objects, &mut b.objects);
        Ok(b)
    }

    /// Build the ASDU. Fails if no objects have been added.
    pub fn build(self) -> (r: Result<Asdu, AduError>)
        ensures
            super::asdu_result_view(r) == (if self@.objects.len() == 0 {
                Err(AduError::EmptyAsdu)
            } else {
                Ok(built_asdu(self@))
            }),
    {
        proof {
            use_type_invariant(&self);
        }
        if self.objects.len() == 0 {
            return Err(AduError::EmptyAsdu);
        }
        let type_id = self.objects[0].value.type_id();
        let num_objects = self.objects.len() as u8;
        Ok(Asdu {
            header: AsduHeader {
                type_id,
                is_sequence: self.is_sequence,
                num_objects,
                cause: self.cause,
                is_test: self.is_test,
                is_negative: self.is_negative,
                originator_address: self.originator_address,
                common_address: self.common_address,
            },
            objects: self.objects,
        })
    }
}

} // verus!
