# autosar_data_abstraction

An abstraction layer for the AUTOSAR data model of the crate `autosar-data`: typed views onto
the elements of a model, with the operations that create, find, change and remove them.
The views do not copy the model; every operation reads or writes the underlying elements.

The library is written in Verus. The rules that decide which inputs are refused and with which
error, how values are encoded as text and decoded again, and how what is read of an element is
assembled into a value stand in verified functions with exact contracts. Which elements an
operation writes, and with which content, is not verified: see below.

## Layout

- `src/elements.rs`: the trusted boundary. Every call into `autosar-data` stands here, behind a
  small wrapper whose contract says what the outside function guarantees. Element names and
  enum items are passed by their XML text.
- `src/accessors.rs`: small accessors of sub elements (typed values, references, lists).
- `src/text.rs`, `src/values.rs`: text helpers and the interpretation of character content
  (strings, enum items, booleans, integers), with exact specifications.
- `src/datatype/`: application and implementation data types, units, data constraints and the
  mapping between the data types.
- `src/communication/`: ethernet network endpoints and socket addresses, SOME/IP service
  instances in both forms, their service discovery configurations and routing groups, the
  older socket adaptor configuration (socket connection bundles), flexray channel names, and
  the configurations of the CAN and `FlexRay` transport protocols. Clusters, connectors and PDUs
  appear there only as far as these configurations refer to them.
- `src/ecu_configuration/`: module, container, parameter and reference definitions, and the
  values configured against them.
- `src/arpackage.rs`, `src/model.rs`, `src/system.rs`, `src/ecuinstance.rs`: packages, the model,
  systems and ECU instances.
- `app/`: what the verified library leaves out: reading and writing files, the error type as a
  `std::error::Error`, and all floating point values (limits, delays, cycle times, timeouts, float parameters).
- `tests/`: tests that run the library against the real `autosar-data` crate.

## What is verified

The model of `autosar-data` is shared mutable state behind element handles, so the content
that a read returns is not known to the verifier, and no contract relates what a setter writes
to what a getter reads back. The contracts therefore state what the library decides on its own:

- the element name of every wrapped element;
- the exact conversions between enums and their XML texts, with round-trip lemmas;
- the validation rules, each in a function that takes the values read from the model and states
  the rule exactly (for example `check_network_endpoint_address`, `check_set_size`,
  `collect_connectors`, `multicast_addition_needed`, `check_local_unicast_target`,
  `check_bundled_connection`), and the refusal of TCP with multicast socket addresses;
- how the values read of an element are assembled (for example `settings_from_parts`,
  `size_from_parts`);
- the kinds of error that each operation can report.

The writers themselves (for example the code that writes the settings of an implementation data
type, or the size of an array) are checked only for the kinds of error they report; that they
write the right elements is covered by the tests.

The settings of an implementation data type are written as their category text, the name of the
element and the parts of their category; `lemma_settings_written_parts_roundtrip` proves that
these parts, read back through `settings_from_parts`, give the same settings.

## Not included

These parts of the data model need the creation of PDU triggerings, frames and signal
triggerings, which this library does not provide:

- the creation of a `SomeipTpConnection` and the setting of its TP SDU (the rest of the SOME/IP
  TP configuration, including the checks on the transport PDU, is included);
- `SocketConnection::create_socket_connection_ipdu_identifier` and
  `SocketConnectionIpduIdentifier::trigger_pdu`;
- static socket connections of a socket address;
- CAN and LIN physical channels, the frame triggerings of physical channels and the removal of a
  `FlexRay` physical channel.
