# modelnet

A node of a peer-to-peer network on which models are offered, requested and generated. A verifier
broadcasts the resources that a model needs. A prover whose own resources are available offers to
generate the model. The verifier answers the offer with the model's configuration, and the prover
downloads the model's definition, builds it and trains it.

- `src/` is the library: every decision of the node, verified with Verus. A `Node` takes one event
  at a time and says what is to be done about it.
- `app/` is the program around it: the network, the files, JSON, and the jobs that generate a model.
- `tests/` runs the library, with `libp2p`'s peer identifiers and with `serde_json`.

| module       | holds                                                                 |
|--------------|-----------------------------------------------------------------------|
| `message`    | the requests and responses that nodes exchange                        |
| `command`    | the commands that a user types                                        |
| `resources`  | whether the node's resources are available for a request              |
| `generation` | the jobs that generate a model                                        |
| `event`      | events, actions, and the stages that a node goes through              |
| `notice`     | what a node tells its user, and in which lines                        |
| `notation`   | the notation of values in these lines                                 |
| `node`       | how a node reacts to each event                                       |
| `laws`       | what holds of a node whatever happens to it                           |
| `content`    | the identifiers that broadcasts get from their content                |
| `peer`       | peer identifiers, and the text that the network writes them as        |
| `base58`     | what a text in base 58 is                                             |
| `decimal`    | decimal numerals                                                      |

Two things are taken on trust: that `libp2p` writes a peer identifier in base 58 (`peer`), and that
what the standard library writes for a quoted text depends on the text alone (`notation`). Beyond
what `vstd` says of the standard hasher, that a vector of bytes hashes itself by the two writes of
`content` is not proved: `tests/ids.rs` compares the two.

To train models the program also needs the `tensorflow` crate with its system library, and to
download them an HTTPS client for the AWS SDK (its feature `default-https-client`).
