# tgbr

A Game Boy / Game Boy Color emulator core, verified with Verus.

`src/` holds the machine: cartridge header decoding (`rom`, `info`), the memory bank
controllers (`mbc`), the bus with its DMAs and speed switch (`bus`), the I/O block with
joypad, timer and serial port (`io`, `serial`), the video unit (`ppu`, `scan`, `line`,
`render`), the sound unit (`apu`), the SM83 CPU (`cpu`), and the whole machine
(`context`, `gameboy`), and the choice of the cartridge image inside a zip archive
(`archive`), and instruction text for traces (`disasm`). Each operation states in its contract what it does to the
machine's state; the CPU's instructions are specified as the sequence of bus events they
cause, and `cpu::laws` proves what pairs of instructions do together (PUSH/POP,
CALL/RET, ADD/DAA). A frame is stated as a run of device steps (`context::device_step`):
each machine cycle composes the bus, video, sound, serial and timer contracts.

`app/` is a small headless front end: it loads a cartridge (plain or zipped), its backup
RAM and an optional boot ROM, runs frames, and writes the backup RAM back.
