# sync_demos

Three interactive demos of synchronization, with their logic verified by Verus.

| Demo | Shows |
|---|---|
| `reader_writer` | a reader-writer lock with reader-priority, writer-priority and fair policies |
| `producer_consumer` | a bounded buffer: a ring of eight slots, with producers and consumers |
| `dining_philosophers` | dining philosophers with five strategies for getting forks |

## Layout

- `src/` is the library. Everything a demo decides is here, with contracts:
  settings from the command line, the table and its strategies, the buffer, the
  lock, what each thread does next, and the words, colours and places on the
  screen. Each demo has its models as spec functions on a mathematical view
  (`Table`, `Buffer`, `Board`, `LockCoordinator`, `Store`).
- `app/` is the program around it: threads, blocking, the window, drawing and
  files.
- `tests/` runs the library on concrete values.

A thread is a small machine. It asks for one task at a time, such as waiting for
its turn, sleeping or taking a lock, and is told how the task ended; all changes
to shared state are made by the verified step in between.

## What is proved

- Philosophers: a fork is never in two hands, neighbours never eat together, a
  meal is counted exactly once, and under every strategy but plain waiting there
  are always steps that get somebody on (`src/dining/laws.rs`).
- Buffer: items leave in the order they came, one actor at a time, however the
  threads are interleaved; no two items have the same number, and counts are
  commits (`laws.rs`, `crew.rs` and `record.rs` of `src/producer_consumer`).
- Lock: a writer is alone, readers always find something to read, each policy
  puts first whom it says, nobody sleeps through a wakeup, every lock is given
  back once, and counts are completed accesses (`laws.rs`, `crew.rs` and
  `record.rs` of `src/reader_writer`).

Encoding a screenshot is left to the `png` crate; `src/screenshot.rs` states
what is taken for granted about it.

## Running

```
sync_demos reader_writer [readers 1-9] [writers 1-9] [r|w|f] [s]
sync_demos producer_consumer [producers 1-8] [consumers 1-8]
sync_demos dining_philosophers [philosophers] [speed|t|y] [w|f|n|r|o]
```

`Space` pauses and resumes, or takes a step in step-through mode. `S` freezes the
threads and saves a screenshot as a PNG file in the working directory.
